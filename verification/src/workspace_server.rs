//! The service facade: it turns what arrives on the server's calls and
//! streams into events for the three actors, and rejects streams that break
//! the protocol.
//!
//! The facade never touches a registry. It only puts events into the actors'
//! inboxes; an inbox that refuses means that its actor has stopped.

use vstd::prelude::*;
use tokio::sync::mpsc::{unbounded_channel, UnboundedReceiver, UnboundedSender};
use crate::download_manager::{DownloadEvent, DownloadKey};
use crate::messages::{
    ControlRequest, Device, DownloadRequest, DownloadResponse, Monitor, SharedFile, UploadRequest, UploadResponse,
    Workspace, WorkspaceEvent,
};
use crate::simulate::SimulationEvent;
use crate::sink::{deliver, Receipt};
use crate::workspace::SubscriptionEvent;

verus! {

/// Why a call fails.
#[derive(Debug, Clone, Copy, PartialEq, Eq)]
pub enum RpcError {
    /// An actor's inbox refused an event: the actor has stopped.
    ActorStopped,
    /// A transfer stream did not start with its `Initiate` message.
    FirstMessageMustBeInitiate,
    /// A control stream did not start with the workspace that it controls.
    NoMessagesInControlStream,
    /// A control stream carried something else than an input event.
    InvalidControlMessage,
}

/// The kind of status with which a failed call ends.
#[derive(Debug, Clone, Copy, PartialEq, Eq)]
pub enum StatusKind {
    /// The call was aborted because the peer broke the protocol.
    Aborted,
    /// The server could not do its part.
    Unknown,
}

impl RpcError {
    /// The kind of status that the error is reported with: a stream that
    /// breaks the protocol is aborted.
    pub fn kind(&self) -> (kind: StatusKind)
        ensures
            kind == (match self {
                RpcError::ActorStopped => StatusKind::Unknown,
                _ => StatusKind::Aborted,
            }),
    {
        match self {
            RpcError::ActorStopped => StatusKind::Unknown,
            _ => StatusKind::Aborted,
        }
    }

    /// The error in words.
    pub fn message(&self) -> (text: &'static str)
        ensures
            text@ == (match self {
                RpcError::ActorStopped => "channel closed"@,
                RpcError::FirstMessageMustBeInitiate => "First message must be initiate"@,
                RpcError::NoMessagesInControlStream => "No messages in control stream"@,
                RpcError::InvalidControlMessage => "Invalid control message"@,
            }),
    {
        match self {
            RpcError::ActorStopped => "channel closed",
            RpcError::FirstMessageMustBeInitiate => "First message must be initiate",
            RpcError::NoMessagesInControlStream => "No messages in control stream",
            RpcError::InvalidControlMessage => "Invalid control message",
        }
    }
}

/// What became of a message that followed the first on a transfer stream.
#[must_use]
pub enum RelayOutcome {
    /// The message was turned into an event, which was handed to the
    /// pairing actor's inbox.
    Forwarded(Receipt<DownloadEvent>),
    /// A second `Initiate`: it is ignored.
    RepeatedInitiate,
    /// Not a message of the protocol: it is ignored.
    Invalid,
}

/// What a request to switch the target put into the inboxes: the event for
/// the simulation router and, if the router's inbox took that, the event for
/// the broker.
#[verifier::reject_recursive_types(E)]
#[must_use]
pub struct TargetPosting<E> {
    pub router: Receipt<SimulationEvent<E>>,
    pub broker: Option<Receipt<SubscriptionEvent>>,
}

/// An open download stream: the key of its session, the receiving end on
/// which the answers arrive, and what was put into the inboxes: the event for
/// the pairing actor and, if that was taken, the event for the broker.
#[must_use]
pub struct DownloadOpening {
    pub key: DownloadKey,
    pub responses: UnboundedReceiver<DownloadResponse>,
    pub session: Receipt<DownloadEvent>,
    pub request: Option<Receipt<SubscriptionEvent>>,
}

/// An open upload stream: the key of its session, the receiving end on
/// which the answers arrive, and the event that was put into the pairing
/// actor's inbox.
#[must_use]
pub struct UploadOpening {
    pub key: DownloadKey,
    pub responses: UnboundedReceiver<UploadResponse>,
    pub connection: Receipt<DownloadEvent>,
}

/// The reply to a call that put one event into an actor's inbox: the call
/// fails if the inbox refused.
pub fn accepted<T>(receipt: &Receipt<T>) -> (reply: Result<(), RpcError>)
    ensures
        reply == if receipt.taken() {
            Ok::<(), RpcError>(())
        } else {
            Err::<(), RpcError>(RpcError::ActorStopped)
        },
{
    if receipt.delivered() {
        Ok(())
    } else {
        Err(RpcError::ActorStopped)
    }
}

impl<E> TargetPosting<E> {
    /// Both inboxes took their event.
    pub open spec fn complete(self) -> bool {
        self.router.taken() && (self.broker matches Some(receipt) && receipt.taken())
    }

    /// The reply to the call: it succeeds when both inboxes took their
    /// event.
    pub fn reply(&self) -> (reply: Result<(), RpcError>)
        ensures
            reply == if self.complete() {
                Ok::<(), RpcError>(())
            } else {
                Err::<(), RpcError>(RpcError::ActorStopped)
            },
    {
        if !self.router.delivered() {
            return Err(RpcError::ActorStopped);
        }
        match &self.broker {
            Some(receipt) => accepted(receipt),
            None => Err(RpcError::ActorStopped),
        }
    }
}

impl DownloadOpening {
    /// Both inboxes took their event.
    pub open spec fn complete(self) -> bool {
        self.session.taken() && (self.request matches Some(receipt) && receipt.taken())
    }

    /// The reply to the call: the stream is open when both inboxes took
    /// their event.
    pub fn reply(&self) -> (reply: Result<(), RpcError>)
        ensures
            reply == if self.complete() {
                Ok::<(), RpcError>(())
            } else {
                Err::<(), RpcError>(RpcError::ActorStopped)
            },
    {
        if !self.session.delivered() {
            return Err(RpcError::ActorStopped);
        }
        match &self.request {
            Some(receipt) => accepted(receipt),
            None => Err(RpcError::ActorStopped),
        }
    }
}

/// The event that the message `request` of the download stream of `key`
/// stands for, if it stands for one: a pull of a chunk or the completion.
pub open spec fn download_event(key: DownloadKey, request: Option<DownloadRequest>) -> Option<DownloadEvent> {
    match request {
        Some(DownloadRequest::Request { offset }) => Some(DownloadEvent::RequestFileChunk(key, offset)),
        Some(DownloadRequest::Complete) => Some(DownloadEvent::DownloadComplete(key)),
        _ => None,
    }
}

/// The event that the message `request` of the upload stream of `key` stands
/// for, if it stands for one: a chunk.
pub open spec fn upload_event(key: DownloadKey, request: Option<UploadRequest>) -> Option<DownloadEvent> {
    match request {
        Some(UploadRequest::Chunk(chunk)) => Some(DownloadEvent::SendFileChunk(key, chunk)),
        _ => None,
    }
}

/// Reads the first message of a control stream, which has to name the
/// workspace and the device that controls it.
pub fn open_control<E>(first: Option<ControlRequest<E>>) -> (opened: Result<(String, String), RpcError>)
    ensures
        opened == (match first {
            Some(ControlRequest::Workspace { workspace, device }) => Ok((workspace, device)),
            _ => Err(RpcError::NoMessagesInControlStream),
        }),
{
    match first {
        Some(ControlRequest::Workspace { workspace, device }) => Ok((workspace, device)),
        _ => Err(RpcError::NoMessagesInControlStream),
    }
}

/// Turns a message that follows the first on the download stream of `key`
/// into the event that it stands for.
pub fn download_event_for(key: &DownloadKey, request: Option<DownloadRequest>) -> (event: Option<DownloadEvent>)
    ensures
        event == download_event(*key, request),
{
    match request {
        Some(DownloadRequest::Request { offset }) => Some(DownloadEvent::RequestFileChunk(key.clone(), offset)),
        Some(DownloadRequest::Complete) => Some(DownloadEvent::DownloadComplete(key.clone())),
        _ => None,
    }
}

/// Turns a message that follows the first on the upload stream of `key` into
/// the event that it stands for.
pub fn upload_event_for(key: &DownloadKey, request: Option<UploadRequest>) -> (event: Option<DownloadEvent>)
    ensures
        event == upload_event(*key, request),
{
    match request {
        Some(UploadRequest::Chunk(chunk)) => Some(DownloadEvent::SendFileChunk(key.clone(), chunk)),
        _ => None,
    }
}

/// The one workspace that the server offers: its devices and their monitors.
pub open spec fn is_the_workspace(workspace: Workspace) -> bool {
    &&& workspace.name@ == "The Workspace"@
    &&& workspace.controller@ == "desktop"@
    &&& workspace.target@ == ""@
    &&& workspace.devices@.len() == 2
    &&& workspace.devices@[0].name@ == "desktop"@
    &&& workspace.devices@[0].controller
    &&& workspace.devices@[0].files@.len() == 1
    &&& workspace.devices@[0].files@[0].relative_path@ == "simulate"@
    &&& workspace.devices@[0].files@[0].size is None
    &&& workspace.devices@[1].name@ == "laptop"@
    &&& !workspace.devices@[1].controller
    &&& workspace.devices@[1].files@.len() == 0
    &&& workspace.monitors@.len() == 3
    &&& is_monitor(workspace.monitors@[0], "left"@, 0, 1080)
    &&& is_monitor(workspace.monitors@[1], "middle"@, 1920, 1200)
    &&& is_monitor(workspace.monitors@[2], "right"@, 3840, 1080)
}

/// `monitor` is the monitor `name` of the desktop, 1920 wide and `h` high,
/// with its left edge at `x` and its upper edge at 0.
pub open spec fn is_monitor(monitor: Monitor, name: Seq<char>, x: int, h: int) -> bool {
    &&& monitor.name@ == name
    &&& monitor.x == x
    &&& monitor.y == 0
    &&& monitor.w == 1920
    &&& monitor.h == h
    &&& monitor.device@ == "desktop"@
}

/// Describes the one workspace that the server offers.
pub fn the_workspace() -> (workspace: Workspace)
    ensures
        is_the_workspace(workspace),
{
    let mut files: Vec<SharedFile> = Vec::new();
    files.push(SharedFile { relative_path: "simulate".to_owned(), size: None });
    let mut devices: Vec<Device> = Vec::new();
    devices.push(Device { name: "desktop".to_owned(), controller: true, files });
    devices.push(Device { name: "laptop".to_owned(), controller: false, files: Vec::new() });
    let mut monitors: Vec<Monitor> = Vec::new();
    monitors.push(
        Monitor { name: "left".to_owned(), x: 0, y: 0, w: 1920, h: 1080, device: "desktop".to_owned() },
    );
    monitors.push(
        Monitor { name: "middle".to_owned(), x: 1920, y: 0, w: 1920, h: 1200, device: "desktop".to_owned() },
    );
    monitors.push(
        Monitor { name: "right".to_owned(), x: 3840, y: 0, w: 1920, h: 1080, device: "desktop".to_owned() },
    );
    Workspace {
        name: "The Workspace".to_owned(),
        controller: "desktop".to_owned(),
        target: "".to_owned(),
        devices,
        monitors,
    }
}

/// The facade: the inboxes of the three actors, and the description of the
/// workspace that the server offers.
#[verifier::reject_recursive_types(E)]
pub struct WorkspaceServer<E> {
    workspace_sender: UnboundedSender<SubscriptionEvent>,
    simulation_sender: UnboundedSender<SimulationEvent<E>>,
    download_sender: UnboundedSender<DownloadEvent>,
    the_workspace: Workspace,
}

impl<E> WorkspaceServer<E> {
    /// The description of the workspace that the server offers.
    pub closed spec fn workspace(&self) -> Workspace {
        self.the_workspace
    }

    /// The inbox of the broker.
    pub closed spec fn broker_inbox(&self) -> UnboundedSender<SubscriptionEvent> {
        self.workspace_sender
    }

    /// The inbox of the simulation router.
    pub closed spec fn router_inbox(&self) -> UnboundedSender<SimulationEvent<E>> {
        self.simulation_sender
    }

    /// The inbox of the pairing actor.
    pub closed spec fn pairing_inbox(&self) -> UnboundedSender<DownloadEvent> {
        self.download_sender
    }

    /// A facade in front of the actors with these inboxes.
    pub fn new(
        workspace_sender: UnboundedSender<SubscriptionEvent>,
        simulation_sender: UnboundedSender<SimulationEvent<E>>,
        download_sender: UnboundedSender<DownloadEvent>,
    ) -> (server: Self)
        ensures
            is_the_workspace(server.workspace()),
            server.broker_inbox() == workspace_sender,
            server.router_inbox() == simulation_sender,
            server.pairing_inbox() == download_sender,
    {
        WorkspaceServer { workspace_sender, simulation_sender, download_sender, the_workspace: the_workspace() }
    }

    /// The description of the workspace, whatever name is asked for.
    pub fn get_workspace(&self) -> (workspace: &Workspace)
        ensures
            *workspace == self.workspace(),
    {
        &self.the_workspace
    }

    /// Asks the simulation router and then the broker to make `device` the
    /// target of `workspace`. The broker is not asked if the router's inbox
    /// refused.
    pub fn target_device(&self, workspace: String, device: String, clipboard: Option<String>) -> (posting:
        TargetPosting<E>)
        ensures
            posting.router.sink() == self.router_inbox(),
            posting.router.message() == SimulationEvent::<E>::TargetEvent(workspace, device),
            posting.broker is Some <==> posting.router.taken(),
            posting.broker matches Some(receipt) ==> receipt.sink() == self.broker_inbox() && receipt.message()
                == SubscriptionEvent::TargetEvent(workspace, device, clipboard),
    {
        let router = deliver(&self.simulation_sender, SimulationEvent::TargetEvent(workspace.clone(), device.clone()));
        let broker = if router.delivered() {
            Some(deliver(&self.workspace_sender, SubscriptionEvent::TargetEvent(workspace, device, clipboard)))
        } else {
            None
        };
        TargetPosting { router, broker }
    }

    /// Asks the simulation router to remove the simulator `device` of
    /// `workspace`.
    pub fn cancel_simulation(&self, workspace: String, device: String) -> (receipt: Receipt<SimulationEvent<E>>)
        ensures
            receipt.sink() == self.router_inbox(),
            receipt.message() == SimulationEvent::<E>::RemoveSimulator(workspace, device),
    {
        deliver(&self.simulation_sender, SimulationEvent::RemoveSimulator(workspace, device))
    }

    /// Asks the broker to remove the subscriber `device` of `workspace`.
    pub fn cancel_subscription(&self, workspace: String, device: String) -> (receipt: Receipt<SubscriptionEvent>)
        ensures
            receipt.sink() == self.broker_inbox(),
            receipt.message() == SubscriptionEvent::Unsubscribe(workspace, device),
    {
        deliver(&self.workspace_sender, SubscriptionEvent::Unsubscribe(workspace, device))
    }

    /// Registers `device` as a simulator of `workspace`: a new channel is
    /// made, its sending end goes to the simulation router, and its receiving
    /// end, on which the routed input arrives, is handed back.
    pub fn simulate_workspace(&self, workspace: String, device: String) -> (opened: (
        Receipt<SimulationEvent<E>>,
        UnboundedReceiver<E>,
    ))
        ensures
            opened.0.sink() == self.router_inbox(),
            opened.0.message() matches SimulationEvent::AddSimulator(to, name, _) && to == workspace && name
                == device,
    {
        let (sender, receiver) = unbounded_channel::<E>();
        let receipt = deliver(&self.simulation_sender, SimulationEvent::AddSimulator(workspace, device, sender));
        (receipt, receiver)
    }

    /// Subscribes `device` to `workspace`: a new channel is made, its sending
    /// end goes to the broker, and its receiving end, on which the
    /// workspace's events arrive, is handed back.
    pub fn subscribe_to_workspace(&self, workspace: String, device: String) -> (opened: (
        Receipt<SubscriptionEvent>,
        UnboundedReceiver<WorkspaceEvent>,
    ))
        ensures
            opened.0.sink() == self.broker_inbox(),
            opened.0.message() matches SubscriptionEvent::Subscribe(to, name, _) && to == workspace && name
                == device,
    {
        let (sender, receiver) = unbounded_channel::<WorkspaceEvent>();
        let receipt = deliver(&self.workspace_sender, SubscriptionEvent::Subscribe(workspace, device, sender));
        (receipt, receiver)
    }

    /// Handles a message that follows the first on a control stream. An
    /// input event goes to the simulation router, to be routed in the
    /// workspace that the server offers; anything else ends the stream.
    pub fn relay_control(&self, request: Option<ControlRequest<E>>) -> (relayed: Result<
        Receipt<SimulationEvent<E>>,
        RpcError,
    >)
        ensures
            match request {
                Some(ControlRequest::InputEvent(input_event)) => relayed matches Ok(receipt) && receipt.sink()
                    == self.router_inbox() && receipt.message() == SimulationEvent::SimulationEvent(
                    self.workspace().name,
                    input_event,
                ),
                _ => relayed matches Err(error) && error == RpcError::InvalidControlMessage,
            },
    {
        match request {
            Some(ControlRequest::InputEvent(input_event)) => {
                let event = SimulationEvent::SimulationEvent(self.the_workspace.name.clone(), input_event);
                Ok(deliver(&self.simulation_sender, event))
            },
            _ => Err(RpcError::InvalidControlMessage),
        }
    }

    /// Opens a download stream. Its first message has to be `Initiate`:
    /// then a new channel is made, the pairing actor is asked for a session
    /// that sends to it, and, if its inbox took that, the broker is asked to
    /// notify the uploader.
    pub fn open_download(&self, first: Option<DownloadRequest>) -> (opened: Result<DownloadOpening, RpcError>)
        ensures
            match first {
                Some(DownloadRequest::Initiate(initiate)) => {
                    &&& opened matches Ok(opening)
                    &&& opening.key@ == DownloadKey::key_of_download(initiate)
                    &&& opening.session.sink() == self.pairing_inbox()
                    &&& opening.session.message() matches DownloadEvent::CreateConnection(key, _) && key
                        == opening.key
                    &&& opening.request is Some <==> opening.session.taken()
                    &&& opening.request matches Some(receipt) ==> receipt.sink() == self.broker_inbox()
                        && receipt.message() == SubscriptionEvent::DownloadRequested(initiate.workspace, initiate)
                },
                _ => opened matches Err(error) && error == RpcError::FirstMessageMustBeInitiate,
            },
    {
        match first {
            Some(DownloadRequest::Initiate(initiate)) => {
                let (sender, responses) = unbounded_channel::<DownloadResponse>();
                let key = DownloadKey::new2(&initiate);
                let session = deliver(&self.download_sender, DownloadEvent::CreateConnection(key.clone(), sender));
                let request = if session.delivered() {
                    let workspace = initiate.workspace.clone();
                    Some(deliver(&self.workspace_sender, SubscriptionEvent::DownloadRequested(workspace, initiate)))
                } else {
                    None
                };
                Ok(DownloadOpening { key, responses, session, request })
            },
            _ => Err(RpcError::FirstMessageMustBeInitiate),
        }
    }

    /// Handles a message that follows the first on the download stream of
    /// `key`: the event of [`download_event`] goes to the pairing actor.
    pub fn relay_download_request(&self, key: &DownloadKey, request: Option<DownloadRequest>) -> (outcome:
        RelayOutcome)
        ensures
            match outcome {
                RelayOutcome::Forwarded(receipt) => receipt.sink() == self.pairing_inbox() && Some(
                    receipt.message(),
                ) == download_event(*key, request),
                RelayOutcome::RepeatedInitiate => request matches Some(DownloadRequest::Initiate(_)),
                RelayOutcome::Invalid => request is None,
            },
    {
        let repeated = match &request {
            Some(DownloadRequest::Initiate(_)) => true,
            _ => false,
        };
        match download_event_for(key, request) {
            Some(event) => RelayOutcome::Forwarded(deliver(&self.download_sender, event)),
            None => if repeated {
                RelayOutcome::RepeatedInitiate
            } else {
                RelayOutcome::Invalid
            },
        }
    }

    /// Opens an upload stream. Its first message has to be `Initiate`: then
    /// a new channel is made, and the pairing actor is asked to attach its
    /// sending end to the session that the message names.
    pub fn open_upload(&self, first: Option<UploadRequest>) -> (opened: Result<UploadOpening, RpcError>)
        ensures
            match first {
                Some(UploadRequest::Initiate(initiate)) => {
                    &&& opened matches Ok(opening)
                    &&& opening.key@ == DownloadKey::key_of_upload(initiate)
                    &&& opening.connection.sink() == self.pairing_inbox()
                    &&& opening.connection.message() matches DownloadEvent::ConnectUploader(key, _, request)
                        && key == opening.key && request == initiate
                },
                _ => opened matches Err(error) && error == RpcError::FirstMessageMustBeInitiate,
            },
    {
        match first {
            Some(UploadRequest::Initiate(initiate)) => {
                let (sender, responses) = unbounded_channel::<UploadResponse>();
                let key = DownloadKey::new(&initiate);
                let connection = deliver(
                    &self.download_sender,
                    DownloadEvent::ConnectUploader(key.clone(), sender, initiate),
                );
                Ok(UploadOpening { key, responses, connection })
            },
            _ => Err(RpcError::FirstMessageMustBeInitiate),
        }
    }

    /// Handles a message that follows the first on the upload stream of
    /// `key`: the event of [`upload_event`] goes to the pairing actor.
    pub fn relay_upload_request(&self, key: &DownloadKey, request: Option<UploadRequest>) -> (outcome: RelayOutcome)
        ensures
            match outcome {
                RelayOutcome::Forwarded(receipt) => receipt.sink() == self.pairing_inbox() && Some(
                    receipt.message(),
                ) == upload_event(*key, request),
                RelayOutcome::RepeatedInitiate => request matches Some(UploadRequest::Initiate(_)),
                RelayOutcome::Invalid => request is None,
            },
    {
        let repeated = match &request {
            Some(UploadRequest::Initiate(_)) => true,
            _ => false,
        };
        match upload_event_for(key, request) {
            Some(event) => RelayOutcome::Forwarded(deliver(&self.download_sender, event)),
            None => if repeated {
                RelayOutcome::RepeatedInitiate
            } else {
                RelayOutcome::Invalid
            },
        }
    }
}

} // verus!
