//! The events that run through a device's own program, and how the messages
//! of the workspace subscription become such events.

use vstd::prelude::*;
use crate::messages::{ControlRequest, SharedFile, UploadRequested, WorkspaceEvent};
use crate::options::Options;

verus! {

/// What a device learns from its subscription, or asks of it.
#[derive(Debug, Clone, PartialEq, Eq)]
pub enum SubscriptionEvent {
    /// This device is the target now.
    Targetted,
    /// This device is no longer the target.
    Untargetted,
    /// The user wants the named device to be the target.
    RequestTarget(String),
    /// Another device wants a file of this one.
    BeginUpload(UploadRequested),
}

/// What the controller's program reacts to. What an input event holds is
/// left open.
#[derive(Debug, Clone, Copy, PartialEq, Eq)]
pub enum ControllerEvent<I> {
    /// The input hooks saw an event.
    RDevEvent(I),
    /// The mouse movement that has piled up is due to be sent.
    FlushMouse,
}

/// What the simulator's program reacts to. What a position and an input
/// event hold is left open.
#[derive(Debug, Clone, Copy, PartialEq, Eq)]
pub enum SimulationEvent<P, E> {
    /// The device's own mouse was seen at a position.
    LocalMouseChanged(P),
    /// An input event arrived, to be replayed.
    SimulateEvent(E),
}

/// An event of a device's program. What a control event and a simulation
/// event hold is left open.
#[derive(Debug, Clone, PartialEq, Eq)]
pub enum AppEvent<C, S> {
    /// The program ends.
    Quit,
    /// Something that the controller's input hooks saw.
    ControlEvent(C),
    /// Something for the simulator to replay or to remember.
    SimulationEvent(S),
    /// Something from or for the workspace subscription.
    SubscriptionEvent(SubscriptionEvent),
    /// The user wants the shared file of the named device.
    RequestDownload(String, SharedFile),
}

impl<C, S> AppEvent<C, S> {
    /// The event that asks for `device` to become the target.
    pub fn target(device: String) -> (event: Self)
        ensures
            event == AppEvent::<C, S>::SubscriptionEvent(SubscriptionEvent::RequestTarget(device)),
    {
        AppEvent::SubscriptionEvent(SubscriptionEvent::RequestTarget(device))
    }

    /// The event that tells the program that its device is the target.
    pub fn targetted() -> (event: Self)
        ensures
            event == AppEvent::<C, S>::SubscriptionEvent(SubscriptionEvent::Targetted),
    {
        AppEvent::SubscriptionEvent(SubscriptionEvent::Targetted)
    }

    /// The event that tells the program that its device is no longer the
    /// target.
    pub fn untargetted() -> (event: Self)
        ensures
            event == AppEvent::<C, S>::SubscriptionEvent(SubscriptionEvent::Untargetted),
    {
        AppEvent::SubscriptionEvent(SubscriptionEvent::Untargetted)
    }
}

/// What a device does with one message of its subscription.
#[derive(Debug, PartialEq, Eq)]
pub struct SubscriptionStep {
    /// The text to put on the clipboard, if the message brought one.
    pub clipboard: Option<String>,
    /// The event to hand to the device's program, if the message concerns
    /// it.
    pub event: Option<SubscriptionEvent>,
}

/// What a device does with `message`: see [`on_workspace_event`].
pub open spec fn subscription_step(message: WorkspaceEvent) -> SubscriptionStep {
    match message {
        WorkspaceEvent::Targetted { clipboard } => SubscriptionStep {
            clipboard,
            event: Some(SubscriptionEvent::Targetted),
        },
        WorkspaceEvent::Untargetted { device } => SubscriptionStep {
            clipboard: None,
            event: Some(SubscriptionEvent::Untargetted),
        },
        WorkspaceEvent::TargetUpdate { device } => SubscriptionStep { clipboard: None, event: None },
        WorkspaceEvent::DownloadRequest(request) => SubscriptionStep {
            clipboard: None,
            event: Some(SubscriptionEvent::BeginUpload(request)),
        },
    }
}

/// Decides what a device does with `message` of its subscription. The new
/// target takes over the clipboard that came along and is told that it is
/// targetted; the old target is told that it is not; a request to upload is
/// handed on; news about other devices is dropped.
pub fn on_workspace_event(message: WorkspaceEvent) -> (step: SubscriptionStep)
    ensures
        step == subscription_step(message),
{
    match message {
        WorkspaceEvent::Targetted { clipboard } => SubscriptionStep {
            clipboard,
            event: Some(SubscriptionEvent::Targetted),
        },
        WorkspaceEvent::Untargetted { device: _ } => SubscriptionStep {
            clipboard: None,
            event: Some(SubscriptionEvent::Untargetted),
        },
        WorkspaceEvent::TargetUpdate { device: _ } => SubscriptionStep { clipboard: None, event: None },
        WorkspaceEvent::DownloadRequest(request) => SubscriptionStep {
            clipboard: None,
            event: Some(SubscriptionEvent::BeginUpload(request)),
        },
    }
}

/// The first message of the control stream of the device with the settings
/// `options`: it names the workspace that the device controls.
pub fn control_workspace_request<E>(options: &Options) -> (message: ControlRequest<E>)
    ensures
        message == (ControlRequest::<E>::Workspace { workspace: options.workspace, device: options.device }),
{
    ControlRequest::Workspace { workspace: options.workspace.clone(), device: options.device.clone() }
}

} // verus!
