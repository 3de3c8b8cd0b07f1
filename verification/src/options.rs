//! The settings of a device that joins the workspace.

use vstd::prelude::*;
use std::time::Duration;

verus! {

/// The address of the server.
pub const HOST: &'static str = "10.0.0.129";

/// The port on which the server listens.
pub const PORT: i64 = 50051;

/// The span of time that lasts `millis` milliseconds.
pub uninterp spec fn duration_of_millis(millis: u64) -> Duration;

/// `Duration::from_millis` makes the span of time that lasts the given number
/// of milliseconds. The result depends on that number alone, and is given
/// the name [`duration_of_millis`].
pub assume_specification[ Duration::from_millis ](millis: u64) -> (duration: Duration)
    ensures
        duration == duration_of_millis(millis),
;

/// The settings of a device.
pub struct Options {
    /// Where the server is reached.
    pub base_url: String,
    /// The bearer token that every call carries.
    pub token: String,
    /// The workspace that the device joins.
    pub workspace: String,
    /// The name of the device.
    pub device: String,
    /// How many seconds a connection attempt may take.
    pub timeout: u64,
    /// How many calls may be in flight at once.
    pub concurrency_limit: usize,
    /// How often the controller sends the mouse movement that has piled up.
    pub controller_mouse_frequency: Duration,
    /// How many events the device's own event channel holds.
    pub capacity: usize,
    /// The folder whose files the device shares and into which it downloads.
    pub shared_folder: String,
}

impl Options {
    /// The settings of `device`, which presents `token` to the server.
    pub fn new(device: String, token: String) -> (options: Self)
        ensures
            options.base_url@ == "http://10.0.0.129:50051"@,
            options.token == token,
            options.workspace@ == "The Workspace"@,
            options.device == device,
            options.timeout == 5,
            options.concurrency_limit == 256,
            options.controller_mouse_frequency == duration_of_millis(20),
            options.capacity == 256,
            options.shared_folder@ == "/work/ProjectsForFun/rust-synergy/seperate/upload_directory"@,
    {
        Options {
            base_url: "http://10.0.0.129:50051".to_owned(),
            token,
            workspace: "The Workspace".to_owned(),
            device,
            timeout: 5,
            concurrency_limit: 256,
            controller_mouse_frequency: Duration::from_millis(20),
            capacity: 256,
            shared_folder: "/work/ProjectsForFun/rust-synergy/seperate/upload_directory".to_owned(),
        }
    }
}

impl Clone for Options {
    fn clone(&self) -> (copy: Self)
        ensures
            copy == *self,
    {
        Options {
            base_url: self.base_url.clone(),
            token: self.token.clone(),
            workspace: self.workspace.clone(),
            device: self.device.clone(),
            timeout: self.timeout,
            concurrency_limit: self.concurrency_limit,
            controller_mouse_frequency: self.controller_mouse_frequency,
            capacity: self.capacity,
            shared_folder: self.shared_folder.clone(),
        }
    }
}

} // verus!
