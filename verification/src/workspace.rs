//! The workspace broker: it keeps the subscribers of each workspace, hands
//! workspace events to them, and switches the target.
//!
//! Sends never wait. A sink that refuses a message belongs to a device that
//! has gone, and that device is removed from its registry in the same step.

use vstd::prelude::*;
use tokio::sync::mpsc::UnboundedSender;
use crate::device_map::{Delivery, Registry};
use crate::messages::{InitiateDownload, UploadRequested, WorkspaceEvent};
use crate::name_map::{lemma_kept_items, lemma_rank_of_key};
use crate::sink::{deliver, Receipt};
use crate::actor::{broadcast_result, registry_or_empty, with_registry, Actor};

verus! {

/// The least buffer size that an uploader is asked to use: a smaller wish of
/// the downloader is raised to it, which bounds the number of round trips.
pub const MINIMUM_BUFFER_SIZE: u64 = 16384;

/// What a device is to a switch of the target.
#[derive(Debug, Clone, Copy, PartialEq, Eq)]
pub enum TargetType {
    /// The device that becomes the target.
    NewTarget,
    /// The device that was the target.
    OldTarget,
    /// Any other device.
    Neither,
}

/// What `recipient` is to the switch from `previous_target` to `new_target`.
pub open spec fn classification(
    recipient: Seq<char>,
    previous_target: Option<Seq<char>>,
    new_target: Seq<char>,
) -> TargetType {
    if previous_target == Some(recipient) {
        TargetType::OldTarget
    } else if recipient == new_target {
        TargetType::NewTarget
    } else {
        TargetType::Neither
    }
}

/// The message for a device of kind `target_type` when `device_name` becomes
/// the target.
pub open spec fn target_message(target_type: TargetType, device_name: String, clipboard: Option<String>) -> WorkspaceEvent {
    match target_type {
        TargetType::NewTarget => WorkspaceEvent::Targetted { clipboard },
        TargetType::OldTarget => WorkspaceEvent::Untargetted { device: device_name },
        TargetType::Neither => WorkspaceEvent::TargetUpdate { device: device_name },
    }
}

/// The notification that asks an uploader for the file that `initiate`
/// names. A buffer size that the downloader wishes is raised to
/// [`MINIMUM_BUFFER_SIZE`].
pub open spec fn upload_request(initiate: InitiateDownload) -> WorkspaceEvent {
    WorkspaceEvent::DownloadRequest(
        UploadRequested {
            download_device: initiate.download_device,
            relative_path: initiate.relative_path,
            buffer_size: match initiate.buffer_size {
                Some(size) => Some(
                    if size >= MINIMUM_BUFFER_SIZE {
                        size
                    } else {
                        MINIMUM_BUFFER_SIZE
                    },
                ),
                None => None,
            },
        },
    )
}

/// Tells what `recipient` is to the switch from `previous_target` to
/// `new_target`.
pub fn classify(recipient: &String, previous_target: Option<&String>, new_target: &String) -> (kind: TargetType)
    ensures
        kind == classification(
            recipient@,
            match previous_target {
                Some(name) => Some(name@),
                None => None,
            },
            new_target@,
        ),
{
    let was_target = match previous_target {
        Some(name) => *name == *recipient,
        None => false,
    };
    if was_target {
        TargetType::OldTarget
    } else if *recipient == *new_target {
        TargetType::NewTarget
    } else {
        TargetType::Neither
    }
}

/// Builds the message for a device of kind `target_type` when `device_name`
/// becomes the target. The clipboard goes to the new target only.
pub fn get_target_message(target_type: TargetType, device_name: &String, clipboard: &Option<String>) -> (message:
    WorkspaceEvent)
    ensures
        message == target_message(target_type, *device_name, *clipboard),
{
    match target_type {
        TargetType::NewTarget => WorkspaceEvent::Targetted {
            clipboard: match clipboard {
                Some(text) => Some(text.clone()),
                None => None,
            },
        },
        TargetType::OldTarget => WorkspaceEvent::Untargetted { device: device_name.clone() },
        TargetType::Neither => WorkspaceEvent::TargetUpdate { device: device_name.clone() },
    }
}

/// Builds the notification that asks an uploader for the file that
/// `initiate` names.
pub fn get_upload_request(initiate: &InitiateDownload) -> (message: WorkspaceEvent)
    ensures
        message == upload_request(*initiate),
{
    WorkspaceEvent::DownloadRequest(
        UploadRequested {
            download_device: initiate.download_device.clone(),
            relative_path: initiate.relative_path.clone(),
            buffer_size: match initiate.buffer_size {
                Some(size) => Some(
                    if size >= MINIMUM_BUFFER_SIZE {
                        size
                    } else {
                        MINIMUM_BUFFER_SIZE
                    },
                ),
                None => None,
            },
        },
    )
}

/// One notification of a switch of the target: who was told what.
#[must_use]
pub struct Notification {
    /// The device that was notified.
    pub device: String,
    /// What the device is to the switch, which decides its message: see
    /// [`target_message`].
    pub kind: TargetType,
    /// Which sink was handed which message, and whether it took it.
    pub receipt: Receipt<WorkspaceEvent>,
}

/// The devices of a round of notifications.
pub open spec fn notified_names(round: Seq<Notification>) -> Seq<Seq<char>> {
    round.map_values(|notification: Notification| notification.device@)
}

/// The kinds of a round of notifications.
pub open spec fn notified_kinds(round: Seq<Notification>) -> Seq<TargetType> {
    round.map_values(|notification: Notification| notification.kind)
}

/// The sinks of a round of notifications.
pub open spec fn notified_sinks(round: Seq<Notification>) -> Seq<UnboundedSender<WorkspaceEvent>> {
    round.map_values(|notification: Notification| notification.receipt.sink())
}

/// The messages of a round of notifications.
pub open spec fn notified_messages(round: Seq<Notification>) -> Seq<WorkspaceEvent> {
    round.map_values(|notification: Notification| notification.receipt.message())
}

/// The flags of a round of notifications: which of them were delivered.
pub open spec fn notified_flags(round: Seq<Notification>) -> Seq<bool> {
    round.map_values(|notification: Notification| notification.receipt.taken())
}

/// The kinds of the round that the switch to `new_target` owes to the
/// devices `names`: one for each device, by [`classification`].
pub open spec fn round_kinds(names: Seq<Seq<char>>, previous_target: Option<Seq<char>>, new_target: Seq<char>) -> Seq<
    TargetType,
> {
    names.map_values(|name: Seq<char>| classification(name, previous_target, new_target))
}

/// The messages of the round that the switch to `device_name` owes to the
/// devices `names`: one for each device, [`target_message`] of its kind.
pub open spec fn round_messages(
    names: Seq<Seq<char>>,
    previous_target: Option<Seq<char>>,
    device_name: String,
    clipboard: Option<String>,
) -> Seq<WorkspaceEvent> {
    names.map_values(
        |name: Seq<char>| target_message(classification(name, previous_target, device_name@), device_name, clipboard),
    )
}

/// What a request to make `device_name` the target of `workspace` may lead
/// to: `outcome` and `after` are a possible outcome for the registries
/// `before`. The sinks decide who takes its message, and the registry and
/// the request decide the rest.
pub open spec fn target_result(
    before: Map<Seq<char>, Registry<WorkspaceEvent>>,
    workspace: Seq<char>,
    device_name: String,
    clipboard: Option<String>,
    outcome: BrokerOutcome,
    after: Map<Seq<char>, Registry<WorkspaceEvent>>,
) -> bool {
    match outcome {
        BrokerOutcome::NoWorkspace => !before.contains_key(workspace) && after == before,
        BrokerOutcome::AlreadyTargetted => {
            &&& before.contains_key(workspace)
            &&& !before[workspace].emits_round(device_name@)
            &&& after == before
        },
        BrokerOutcome::Retargetted { notifications, registered } => {
            let registry = before[workspace];
            let round = notifications@;
            &&& before.contains_key(workspace)
            &&& registry.emits_round(device_name@)
            &&& notified_names(round) == registry.names
            &&& notified_sinks(round) == registry.sinks
            &&& notified_kinds(round) == round_kinds(registry.names, registry.target, device_name@)
            &&& notified_messages(round) == round_messages(registry.names, registry.target, device_name, clipboard)
            &&& registered == registry.retained(notified_flags(round)).has(device_name@)
            &&& after == with_registry(before, workspace, registry.switched(device_name@, notified_flags(round)))
        },
        _ => false,
    }
}

/// What a request for the file that `initiate` names may lead to: `outcome`
/// and `after` are a possible outcome for the registries `before`. An
/// uploader that is subscribed is handed [`upload_request`] on its own sink,
/// and is gone afterwards if the sink refused.
pub open spec fn request_result(
    before: Map<Seq<char>, Registry<WorkspaceEvent>>,
    workspace: Seq<char>,
    initiate: InitiateDownload,
    outcome: BrokerOutcome,
    after: Map<Seq<char>, Registry<WorkspaceEvent>>,
) -> bool {
    match outcome {
        BrokerOutcome::NoWorkspace => !before.contains_key(workspace) && after == before,
        BrokerOutcome::NoUploader => {
            &&& before.contains_key(workspace)
            &&& !before[workspace].has(initiate.upload_device@)
            &&& after == before
        },
        BrokerOutcome::DownloadRequested(receipt) => {
            &&& before.contains_key(workspace)
            &&& before[workspace].has(initiate.upload_device@)
            &&& receipt.sink() == before[workspace].sink_of(initiate.upload_device@)
            &&& receipt.message() == upload_request(initiate)
            &&& after == if receipt.taken() {
                before
            } else {
                with_registry(before, workspace, before[workspace].unsubscribed(initiate.upload_device@))
            }
        },
        _ => false,
    }
}

impl<T> Registry<T> {
    /// Whether a request to target `device` emits a round of notifications:
    /// it does unless `device` is the target already.
    pub open spec fn emits_round(self, device: Seq<char>) -> bool {
        self.target != Some(device)
    }

    /// The registry after a round of notifications for the switch to
    /// `device`: the devices whose sink refused are gone, and `device` is the
    /// target if it is still registered. Otherwise the previous target stays,
    /// unless it is gone too.
    pub open spec fn switched(self, device: Seq<char>, delivered: Seq<bool>) -> Self {
        self.retained(delivered).targetting(device)
    }
}

/// Targeting is idempotent: once a switch has made `device` the target, a
/// second request to target `device` emits no round of notifications. A
/// switch makes `device` the target whenever `device` is registered and its
/// own sink took the notification.
pub proof fn lemma_second_request_is_silent<T>(registry: Registry<T>, device: Seq<char>, delivered: Seq<bool>)
    requires
        registry.wf(),
        delivered.len() == registry.names.len(),
        registry.retained(delivered).has(device),
    ensures
        registry.switched(device, delivered).target == Some(device),
        !registry.switched(device, delivered).emits_round(device),
{
}

/// After a switch there is at most one target, it is a registered device,
/// and every other device that is still registered took a message that names
/// the new target: `Untargetted` if it was the target before, `TargetUpdate`
/// if not.
pub proof fn lemma_switch_reaches_everyone<T>(
    registry: Registry<T>,
    device: String,
    clipboard: Option<String>,
    delivered: Seq<bool>,
    i: int,
)
    requires
        registry.wf(),
        delivered.len() == registry.names.len(),
        registry.emits_round(device@),
        0 <= i < registry.names.len(),
        registry.switched(device@, delivered).has(registry.names[i]),
        registry.names[i] != device@,
    ensures
        delivered[i],
        registry.switched(device@, delivered).target matches Some(name) ==> registry.switched(
            device@,
            delivered,
        ).has(name),
        target_message(classification(registry.names[i], registry.target, device@), device, clipboard) == (
        if registry.target == Some(registry.names[i]) {
            WorkspaceEvent::Untargetted { device }
        } else {
            WorkspaceEvent::TargetUpdate { device }
        }),
{
    lemma_kept_items(registry.names, delivered);
    let name = registry.names[i];
    let k = choose|k: int| 0 <= k < registry.names.len() && delivered[k] && #[trigger] registry.names[k] == name;
    lemma_rank_of_key(registry.names, k);
    lemma_rank_of_key(registry.names, i);
}

/// What the broker is asked to do.
pub enum SubscriptionEvent {
    /// A device opens its subscription to a workspace.
    Subscribe(String, String, UnboundedSender<WorkspaceEvent>),
    /// A device cancels its subscription.
    Unsubscribe(String, String),
    /// An event is to be handed to every subscriber of a workspace.
    WorkspaceEvent(String, WorkspaceEvent),
    /// A workspace closes.
    WorkspaceClosing(String),
    /// The server shuts down.
    ApplicationClosing,
    /// A device is to become the target of a workspace; the clipboard of the
    /// side that asks comes along where it could be read.
    TargetEvent(String, String, Option<String>),
    /// A downloader asks for a file of another device of the workspace.
    DownloadRequested(String, InitiateDownload),
}

/// What the broker did with an event.
#[must_use]
pub enum BrokerOutcome {
    /// The device was registered.
    Subscribed,
    /// The device was removed, if it was registered.
    Unsubscribed,
    /// The event was handed to every subscriber; the report names them.
    Broadcast(Vec<Delivery<WorkspaceEvent>>),
    /// The workspace named no registry: nothing was done.
    NoWorkspace,
    /// The uploader was asked for the file.
    DownloadRequested(Receipt<WorkspaceEvent>),
    /// The uploader is not subscribed: nothing was sent.
    NoUploader,
    /// The device is the target already: nothing was sent.
    AlreadyTargetted,
    /// A round of notifications was emitted, one to every subscriber.
    /// `registered` tells whether the new target is a registered device and
    /// so became the target.
    Retargetted { notifications: Vec<Notification>, registered: bool },
    /// The workspace's registry was dropped.
    WorkspaceClosed,
    /// Every registry was dropped.
    Closed,
}

/// The workspace broker.
pub struct WorkspaceActor {
    listeners: Actor<WorkspaceEvent>,
}

impl View for WorkspaceActor {
    type V = Map<Seq<char>, Registry<WorkspaceEvent>>;

    closed spec fn view(&self) -> Map<Seq<char>, Registry<WorkspaceEvent>> {
        self.listeners@
    }
}

impl Default for WorkspaceActor {
    /// The broker without any subscriber.
    fn default() -> (actor: Self)
        ensures
            actor.wf(),
            actor@ == Map::<Seq<char>, Registry<WorkspaceEvent>>::empty(),
    {
        WorkspaceActor { listeners: Actor::new() }
    }
}

impl WorkspaceActor {
    /// The broker's table is well formed: every workspace in it has a
    /// well-formed registry with at least one device.
    pub closed spec fn wf(&self) -> bool {
        self.listeners.wf()
    }

    /// In a well-formed broker every registry is well formed and holds a
    /// device: a workspace without a device has no entry.
    pub proof fn lemma_populated(&self)
        requires
            self.wf(),
        ensures
            crate::actor::all_populated(self@),
    {
        self.listeners.lemma_populated();
    }

    /// Whether `device` is subscribed to `workspace`.
    pub fn is_subscribed(&self, workspace: &String, device: &String) -> (subscribed: bool)
        requires
            self.wf(),
        ensures
            subscribed == (self@.contains_key(workspace@) && self@[workspace@].has(device@)),
    {
        match self.listeners.get(workspace) {
            Some(registry) => registry.contains(device),
            None => false,
        }
    }

    /// Whether `device` is the target of `workspace`.
    pub fn is_target(&self, workspace: &String, device: &String) -> (targetted: bool)
        requires
            self.wf(),
        ensures
            targetted == (self@.contains_key(workspace@) && self@[workspace@].target == Some(device@)),
    {
        match self.listeners.get(workspace) {
            Some(registry) => registry.is_target(device),
            None => false,
        }
    }

    /// Whether `workspace` has a registry, that is, a subscriber.
    pub fn has_workspace(&self, workspace: &String) -> (found: bool)
        requires
            self.wf(),
        ensures
            found == self@.contains_key(workspace@),
    {
        self.listeners.contains(workspace)
    }

    /// Registers `device` with `sink` in `workspace`. Events that were handed
    /// out before are not delivered to it.
    pub fn subscribe(&mut self, workspace: String, device: String, sink: UnboundedSender<WorkspaceEvent>)
        requires
            old(self).wf(),
        ensures
            final(self).wf(),
            final(self)@ == old(self)@.insert(
                workspace@,
                registry_or_empty(old(self)@, workspace@).subscribed(device@, sink),
            ),
    {
        self.listeners.subscribe(workspace, device, sink);
    }

    /// Removes `device` from `workspace`; a workspace left without a device
    /// is dropped.
    pub fn unsubscribe(&mut self, workspace: &String, device: &String)
        requires
            old(self).wf(),
        ensures
            final(self).wf(),
            final(self)@ == if old(self)@.contains_key(workspace@) {
                with_registry(old(self)@, workspace@, old(self)@[workspace@].unsubscribed(device@))
            } else {
                old(self)@
            },
    {
        self.listeners.unsubscribe(workspace, device);
    }

    /// Hands a copy of `event` to every subscriber of `workspace` and removes
    /// each device whose sink refused; a workspace left without a device is
    /// dropped.
    pub fn broadcast(&mut self, workspace: String, event: &WorkspaceEvent) -> (outcome: BrokerOutcome)
        requires
            old(self).wf(),
        ensures
            final(self).wf(),
            match outcome {
                BrokerOutcome::NoWorkspace => broadcast_result(old(self)@, workspace@, *event, None, final(self)@),
                BrokerOutcome::Broadcast(report) => broadcast_result(
                    old(self)@,
                    workspace@,
                    *event,
                    Some(report),
                    final(self)@,
                ),
                _ => false,
            },
    {
        match self.listeners.broadcast(workspace, event) {
            None => BrokerOutcome::NoWorkspace,
            Some(report) => BrokerOutcome::Broadcast(report),
        }
    }

    /// Asks the uploading device that `initiate` names for the file: it is
    /// sent [`upload_request`]. If it is not subscribed, nothing is sent, and
    /// the downloader has to give up by itself. An uploader whose sink
    /// refuses is removed.
    pub fn request_download(&mut self, workspace: String, initiate: &InitiateDownload) -> (outcome: BrokerOutcome)
        requires
            old(self).wf(),
        ensures
            final(self).wf(),
            request_result(old(self)@, workspace@, *initiate, outcome, final(self)@),
    {
        match self.listeners.take(&workspace) {
            None => {
                assert(final(self)@ =~= old(self)@);
                BrokerOutcome::NoWorkspace
            },
            Some(mut registry) => {
                let receipt = match registry.sink_of(&initiate.upload_device) {
                    None => None,
                    Some(uploader) => Some(deliver(uploader, get_upload_request(initiate))),
                };
                match receipt {
                    None => {
                        self.listeners.put(workspace, registry);
                        assert(final(self)@ =~= old(self)@);
                        BrokerOutcome::NoUploader
                    },
                    Some(receipt) => {
                        if !receipt.delivered() {
                            registry.remove(&initiate.upload_device);
                        }
                        self.listeners.put(workspace, registry);
                        if receipt.delivered() {
                            assert(final(self)@ =~= old(self)@);
                        } else {
                            assert(final(self)@ =~= with_registry(
                                old(self)@,
                                workspace@,
                                old(self)@[workspace@].unsubscribed(initiate.upload_device@),
                            ));
                        }
                        BrokerOutcome::DownloadRequested(receipt)
                    },
                }
            },
        }
    }

    /// Handles a request to make `device_name` the target of
    /// `workspace_name`.
    ///
    /// A request for the device that is the target already is suppressed.
    /// Otherwise every subscriber is sent exactly one message, in the order
    /// of the registry's walk: [`target_message`] of the kind that
    /// [`classification`] gives it. The devices whose sink refused are
    /// removed, and then `device_name` becomes the target if it is
    /// registered. A request for a device that is not registered still emits
    /// the round, and leaves the previous target in place.
    pub fn handle_target_event(&mut self, workspace_name: String, device_name: String, clipboard: Option<String>) -> (outcome:
        BrokerOutcome)
        requires
            old(self).wf(),
        ensures
            final(self).wf(),
            target_result(old(self)@, workspace_name@, device_name, clipboard, outcome, final(self)@),
    {
        match self.listeners.take(&workspace_name) {
            None => {
                assert(final(self)@ =~= old(self)@);
                BrokerOutcome::NoWorkspace
            },
            Some(mut registry) => {
                if registry.is_target(&device_name) {
                    self.listeners.put(workspace_name, registry);
                    assert(final(self)@ =~= old(self)@);
                    return BrokerOutcome::AlreadyTargetted;
                }
                let ghost before = registry@;
                let ghost kinds = round_kinds(before.names, before.target, device_name@);
                let ghost messages = round_messages(before.names, before.target, device_name, clipboard);
                let mut notifications: Vec<Notification> = Vec::new();
                let mut keep: Vec<bool> = Vec::new();
                let n = registry.len();
                let mut i: usize = 0;
                while i < n
                    invariant
                        registry.wf(),
                        registry@ == before,
                        n == before.names.len(),
                        i <= n,
                        notifications@.len() == i,
                        kinds == round_kinds(before.names, before.target, device_name@),
                        messages == round_messages(before.names, before.target, device_name, clipboard),
                        keep@ == notified_flags(notifications@),
                        notified_names(notifications@) == before.names.take(i as int),
                        notified_sinks(notifications@) == before.sinks.take(i as int),
                        notified_kinds(notifications@) == kinds.take(i as int),
                        notified_messages(notifications@) == messages.take(i as int),
                    decreases n - i,
                {
                    let kind = classify(registry.name_at(i), registry.target(), &device_name);
                    let delivery = registry.deliver_at(i, get_target_message(kind, &device_name, &clipboard));
                    keep.push(delivery.receipt.delivered());
                    notifications.push(Notification { device: delivery.device, kind, receipt: delivery.receipt });
                    i = i + 1;
                }
                proof {
                    assert(before.names.take(n as int) =~= before.names);
                    assert(before.sinks.take(n as int) =~= before.sinks);
                    assert(kinds.take(n as int) =~= kinds);
                    assert(messages.take(n as int) =~= messages);
                }
                registry.retain(&keep);
                let registered = registry.set_target(device_name);
                self.listeners.put(workspace_name, registry);
                assert(final(self)@ =~= with_registry(
                    old(self)@,
                    workspace_name@,
                    before.switched(device_name@, notified_flags(notifications@)),
                ));
                BrokerOutcome::Retargetted { notifications, registered }
            },
        }
    }

    /// Drops the registry of `workspace` with all its devices.
    pub fn close_workspace(&mut self, workspace: &String)
        requires
            old(self).wf(),
        ensures
            final(self).wf(),
            final(self)@ == old(self)@.remove(workspace@),
    {
        self.listeners.close(workspace);
    }

    /// Drops every registry.
    pub fn close(&mut self)
        ensures
            final(self).wf(),
            final(self)@ == Map::<Seq<char>, Registry<WorkspaceEvent>>::empty(),
    {
        self.listeners.clear();
    }

    /// Handles one event. Events are handled one at a time, in the order in
    /// which they arrive.
    pub fn receive(&mut self, event: SubscriptionEvent) -> (outcome: BrokerOutcome)
        requires
            old(self).wf(),
        ensures
            final(self).wf(),
            match event {
                SubscriptionEvent::Subscribe(workspace, device, sink) => {
                    &&& outcome is Subscribed
                    &&& final(self)@ == old(self)@.insert(
                        workspace@,
                        registry_or_empty(old(self)@, workspace@).subscribed(device@, sink),
                    )
                },
                SubscriptionEvent::Unsubscribe(workspace, device) => {
                    &&& outcome is Unsubscribed
                    &&& final(self)@ == if old(self)@.contains_key(workspace@) {
                        with_registry(old(self)@, workspace@, old(self)@[workspace@].unsubscribed(device@))
                    } else {
                        old(self)@
                    }
                },
                SubscriptionEvent::WorkspaceEvent(workspace, event) => match outcome {
                    BrokerOutcome::NoWorkspace => broadcast_result(
                        old(self)@,
                        workspace@,
                        event,
                        None,
                        final(self)@,
                    ),
                    BrokerOutcome::Broadcast(report) => broadcast_result(
                        old(self)@,
                        workspace@,
                        event,
                        Some(report),
                        final(self)@,
                    ),
                    _ => false,
                },
                SubscriptionEvent::WorkspaceClosing(workspace) => {
                    &&& outcome is WorkspaceClosed
                    &&& final(self)@ == old(self)@.remove(workspace@)
                },
                SubscriptionEvent::ApplicationClosing => {
                    &&& outcome is Closed
                    &&& final(self)@ == Map::<Seq<char>, Registry<WorkspaceEvent>>::empty()
                },
                SubscriptionEvent::TargetEvent(workspace, device, clipboard) => target_result(
                    old(self)@,
                    workspace@,
                    device,
                    clipboard,
                    outcome,
                    final(self)@,
                ),
                SubscriptionEvent::DownloadRequested(workspace, initiate) => request_result(
                    old(self)@,
                    workspace@,
                    initiate,
                    outcome,
                    final(self)@,
                ),
            },
    {
        match event {
            SubscriptionEvent::Subscribe(workspace, device, sink) => {
                self.subscribe(workspace, device, sink);
                BrokerOutcome::Subscribed
            },
            SubscriptionEvent::Unsubscribe(workspace, device) => {
                self.unsubscribe(&workspace, &device);
                BrokerOutcome::Unsubscribed
            },
            SubscriptionEvent::WorkspaceEvent(workspace, event) => self.broadcast(workspace, &event),
            SubscriptionEvent::WorkspaceClosing(workspace) => {
                self.close_workspace(&workspace);
                BrokerOutcome::WorkspaceClosed
            },
            SubscriptionEvent::ApplicationClosing => {
                self.close();
                BrokerOutcome::Closed
            },
            SubscriptionEvent::TargetEvent(workspace, device, clipboard) => self.handle_target_event(
                workspace,
                device,
                clipboard,
            ),
            SubscriptionEvent::DownloadRequested(workspace, initiate) => self.request_download(workspace, &initiate),
        }
    }
}

} // verus!
