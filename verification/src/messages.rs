//! The messages that devices and the server exchange.

use vstd::prelude::*;

verus! {

/// Asks an uploading device to offer a file to the device that wants it.
#[derive(Debug, PartialEq, Eq)]
pub struct UploadRequested {
    pub download_device: String,
    pub relative_path: String,
    pub buffer_size: Option<u64>,
}

impl Clone for UploadRequested {
    fn clone(&self) -> (copy: Self)
        ensures
            copy == *self,
    {
        UploadRequested {
            download_device: self.download_device.clone(),
            relative_path: self.relative_path.clone(),
            buffer_size: self.buffer_size,
        }
    }
}

/// What a subscribed device is told about its workspace.
#[derive(Debug, PartialEq, Eq)]
pub enum WorkspaceEvent {
    /// The receiver is the new target; the clipboard of the side that asked
    /// for the switch comes along where it could be read.
    Targetted { clipboard: Option<String> },
    /// The receiver was the target and `device` has taken over.
    Untargetted { device: String },
    /// `device` is the target now; the receiver is not concerned.
    TargetUpdate { device: String },
    /// The receiver is asked to upload a file.
    DownloadRequest(UploadRequested),
}

impl Clone for WorkspaceEvent {
    fn clone(&self) -> (copy: Self)
        ensures
            copy == *self,
    {
        match self {
            WorkspaceEvent::Targetted { clipboard } => WorkspaceEvent::Targetted {
                clipboard: match clipboard {
                    Some(text) => Some(text.clone()),
                    None => None,
                },
            },
            WorkspaceEvent::Untargetted { device } => WorkspaceEvent::Untargetted { device: device.clone() },
            WorkspaceEvent::TargetUpdate { device } => WorkspaceEvent::TargetUpdate { device: device.clone() },
            WorkspaceEvent::DownloadRequest(request) => WorkspaceEvent::DownloadRequest(request.clone()),
        }
    }
}

/// The first message of a download stream: which file the downloading device
/// wants, and from whom.
#[derive(Debug, PartialEq, Eq)]
pub struct InitiateDownload {
    pub workspace: String,
    pub download_device: String,
    pub upload_device: String,
    pub relative_path: String,
    pub buffer_size: Option<u64>,
}

/// The first message of an upload stream: the file that the uploading device
/// offers, cut into chunks of `buffer_size` bytes.
#[derive(Debug, PartialEq, Eq)]
pub struct InitiateUpload {
    pub workspace: String,
    pub download_device: String,
    pub upload_device: String,
    pub relative_path: String,
    pub buffer_size: u64,
    pub checksum: String,
    pub number_of_chunks: u64,
    pub permissions: Option<u32>,
}

/// Tells the downloading device that its transfer is paired, and what to
/// expect.
#[derive(Debug, PartialEq, Eq)]
pub struct DownloadInitiated {
    pub number_of_chunks: u64,
    pub checksum: String,
    pub buffer_size: u64,
    pub permissions: Option<u32>,
}

/// One chunk of a file: the bytes that stand at `offset` chunks into it.
#[derive(Debug, PartialEq, Eq)]
pub struct SharedFileChunk {
    pub offset: u64,
    pub data: Vec<u8>,
}

/// What the downloading device sends on its stream.
#[derive(Debug, PartialEq, Eq)]
pub enum DownloadRequest {
    Initiate(InitiateDownload),
    /// Pulls the chunk at `offset`.
    Request { offset: u64 },
    /// Every chunk has arrived.
    Complete,
}

/// What the downloading device receives on its stream.
#[derive(Debug, PartialEq, Eq)]
pub enum DownloadResponse {
    Initiated(DownloadInitiated),
    Chunk(SharedFileChunk),
}

/// What the uploading device sends on its stream.
#[derive(Debug, PartialEq, Eq)]
pub enum UploadRequest {
    Initiate(InitiateUpload),
    Chunk(SharedFileChunk),
}

/// What the uploading device receives on its stream.
#[derive(Debug, PartialEq, Eq)]
pub enum UploadResponse {
    /// The downloader pulls the chunk at `offset`.
    Request { offset: u64 },
    /// The downloader has every chunk.
    Complete,
}

/// A file that a device offers to the other devices of its workspace.
#[derive(Debug, Clone, PartialEq, Eq)]
pub struct SharedFile {
    pub relative_path: String,
    pub size: Option<u64>,
}

/// A device of a workspace.
#[derive(Debug, Clone, PartialEq, Eq)]
pub struct Device {
    pub name: String,
    /// Whether the physical keyboard and mouse are attached to this device.
    pub controller: bool,
    pub files: Vec<SharedFile>,
}

/// A monitor of a device, placed in the plane that the monitors of a
/// workspace share.
#[derive(Debug, PartialEq, Eq)]
pub struct Monitor {
    pub name: String,
    pub x: i32,
    pub y: i32,
    pub w: i32,
    pub h: i32,
    pub device: String,
}

/// The description of a workspace.
#[derive(Debug, PartialEq, Eq)]
pub struct Workspace {
    pub name: String,
    pub controller: String,
    pub target: String,
    pub devices: Vec<Device>,
    pub monitors: Vec<Monitor>,
}

/// What a controlling device sends on its control stream: first the
/// workspace that it controls, then one input event after the other. The
/// kind of input event is left open.
#[derive(Debug, PartialEq, Eq)]
pub enum ControlRequest<E> {
    Workspace { workspace: String, device: String },
    InputEvent(E),
}

/// An input event in whole numbers: a move of the mouse, a key and its
/// state, or a turn of the wheel.
#[derive(Debug, Clone, Copy, PartialEq, Eq)]
pub enum UserInputEvent {
    MouseMove(i32, i32),
    Keyboard(i32, i32),
    Wheel(i32, i32),
}

} // verus!
