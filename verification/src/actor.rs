//! The listeners of all workspaces, and the actor that does no more than
//! keep them and hand events to them.
//!
//! A workspace has an entry exactly while at least one device is registered
//! in it: no memory is held for an empty workspace. The broker and the
//! simulation router are built on this table.

use vstd::prelude::*;
use tokio::sync::mpsc::UnboundedSender;
use crate::device_map::{delivered_flags, delivery_messages, Delivery, DeviceMap, Registry};
use crate::name_map::NameMap;

verus! {

/// Every registry of `registries` is well formed and holds a device.
pub open spec fn all_populated<T>(registries: Map<Seq<char>, Registry<T>>) -> bool {
    forall|workspace: Seq<char>| #[trigger]
        registries.contains_key(workspace) ==> registries[workspace].wf() && registries[workspace].names.len()
            > 0
}

/// The registry of `workspace` in `registries`, the empty one where the
/// workspace has no entry.
pub open spec fn registry_or_empty<T>(registries: Map<Seq<char>, Registry<T>>, workspace: Seq<char>) -> Registry<
    T,
> {
    if registries.contains_key(workspace) {
        registries[workspace]
    } else {
        Registry::empty()
    }
}

/// `registries` with `registry` as the registry of `workspace`, or without an
/// entry for that workspace if the registry holds no device.
pub open spec fn with_registry<T>(
    registries: Map<Seq<char>, Registry<T>>,
    workspace: Seq<char>,
    registry: Registry<T>,
) -> Map<Seq<char>, Registry<T>> {
    if registry.names.len() > 0 {
        registries.insert(workspace, registry)
    } else {
        registries.remove(workspace)
    }
}

/// What a broadcast of `event` in `workspace` may lead to: `report` and
/// `after` are a possible outcome for the registries `before`. Without a
/// registry nothing happens. Otherwise every registered device is handed a
/// copy of the event, each on its own sink, and the devices whose sink
/// refused are gone afterwards, and with the last of them the workspace.
pub open spec fn broadcast_result<T: Clone>(
    before: Map<Seq<char>, Registry<T>>,
    workspace: Seq<char>,
    event: T,
    report: Option<Vec<Delivery<T>>>,
    after: Map<Seq<char>, Registry<T>>,
) -> bool {
    match report {
        None => !before.contains_key(workspace) && after == before,
        Some(report) => {
            &&& before.contains_key(workspace)
            &&& before[workspace].round(report@)
            &&& forall|i: int| 0 <= i < report@.len() ==> cloned(event, #[trigger] delivery_messages(report@)[i])
            &&& after == with_registry(
                before,
                workspace,
                before[workspace].retained(delivered_flags(report@)),
            )
        },
    }
}

/// What the actor is asked to do.
#[verifier::reject_recursive_types(T)]
pub enum SubscriptionEvent<T> {
    /// A device starts to listen to a workspace.
    ListenerCreated(String, String, UnboundedSender<T>),
    /// A device stops listening.
    ListenerRemoved(String, String),
    /// A workspace closes.
    WorkspaceClosed(String),
    /// An event is to be handed to every listener of a workspace.
    Event(String, T),
    /// The server shuts down.
    ApplicationClosing,
}

/// What the actor did with an event.
#[verifier::reject_recursive_types(T)]
#[must_use]
pub enum ActorOutcome<T> {
    /// The listener was registered.
    Created,
    /// The listener was removed, if it was registered.
    Removed,
    /// The workspace's registry was dropped.
    WorkspaceClosed,
    /// The event was handed to every listener; the report names them.
    Broadcast(Vec<Delivery<T>>),
    /// The workspace named no registry: nothing was done.
    NoWorkspace,
    /// Every registry was dropped.
    Closed,
}

/// The registries of the workspaces, by workspace name.
#[verifier::reject_recursive_types(T)]
pub struct Actor<T> {
    listeners: NameMap<DeviceMap<T>>,
}

impl<T> View for Actor<T> {
    type V = Map<Seq<char>, Registry<T>>;

    closed spec fn view(&self) -> Map<Seq<char>, Registry<T>> {
        Map::new(
            |workspace: Seq<char>| self.listeners.as_map().contains_key(workspace),
            |workspace: Seq<char>| self.listeners.as_map()[workspace]@,
        )
    }
}

impl<T> Actor<T> {
    /// The table is sorted, and every registry in it is well formed and
    /// holds a device.
    pub closed spec fn wf(&self) -> bool {
        &&& self.listeners.wf()
        &&& forall|i: int|
            0 <= i < self.listeners.values().len() ==> (#[trigger] self.listeners.values()[i]).wf()
                && self.listeners.values()[i]@.names.len() > 0
    }

    /// In a well-formed table every registry is well formed and holds a
    /// device.
    pub proof fn lemma_populated(&self)
        requires
            self.wf(),
        ensures
            all_populated(self@),
    {
        assert forall|workspace: Seq<char>| #[trigger] self@.contains_key(workspace) implies self@[workspace].wf()
            && self@[workspace].names.len() > 0 by {
            crate::name_map::lemma_rank_sorted(self.listeners.keys(), workspace);
        }
    }

    /// A table without any workspace.
    pub fn new() -> (table: Self)
        ensures
            table.wf(),
            table@ == Map::<Seq<char>, Registry<T>>::empty(),
    {
        let table = Actor { listeners: NameMap::new() };
        table
    }

    /// Whether `workspace` has an entry, that is, a registered device.
    pub fn contains(&self, workspace: &String) -> (found: bool)
        requires
            self.wf(),
        ensures
            found == self@.contains_key(workspace@),
    {
        self.listeners.contains_key(workspace)
    }

    /// The registry of `workspace`, if it has one.
    pub fn get(&self, workspace: &String) -> (registry: Option<&DeviceMap<T>>)
        requires
            self.wf(),
        ensures
            match registry {
                Some(registry) => self@.contains_key(workspace@) && registry@ == self@[workspace@]
                    && registry.wf() && registry@.names.len() > 0,
                None => !self@.contains_key(workspace@),
            },
    {
        proof {
            crate::name_map::lemma_rank_sorted(self.listeners.keys(), workspace@);
        }
        self.listeners.get(workspace)
    }

    /// Takes the registry of `workspace` out of the table and hands it over.
    pub fn take(&mut self, workspace: &String) -> (registry: Option<DeviceMap<T>>)
        requires
            old(self).wf(),
        ensures
            final(self).wf(),
            final(self)@ == old(self)@.remove(workspace@),
            match registry {
                Some(registry) => old(self)@.contains_key(workspace@) && registry@ == old(self)@[workspace@]
                    && registry.wf() && registry@.names.len() > 0,
                None => !old(self)@.contains_key(workspace@),
            },
    {
        proof {
            crate::name_map::lemma_rank_sorted(self.listeners.keys(), workspace@);
        }
        self.listeners.remove(workspace)
    }

    /// Puts `registry` back as the registry of `workspace`. An empty registry
    /// is dropped, and with it the workspace's entry.
    pub fn put(&mut self, workspace: String, registry: DeviceMap<T>)
        requires
            old(self).wf(),
            registry.wf(),
        ensures
            final(self).wf(),
            final(self)@ == with_registry(old(self)@, workspace@, registry@),
    {
        if registry.is_empty() {
            let _ = self.take(&workspace);
        } else {
            proof {
                crate::name_map::lemma_rank_sorted(self.listeners.keys(), workspace@);
            }
            let _ = self.listeners.insert(workspace, registry);
        }
    }

    /// Registers `device` with `sink` in `workspace`. The workspace gets an
    /// entry if it had none; a device that subscribes again has its old sink
    /// replaced.
    pub fn subscribe(&mut self, workspace: String, device: String, sink: UnboundedSender<T>)
        requires
            old(self).wf(),
        ensures
            final(self).wf(),
            final(self)@ == old(self)@.insert(
                workspace@,
                registry_or_empty(old(self)@, workspace@).subscribed(device@, sink),
            ),
    {
        let mut registry = match self.take(&workspace) {
            Some(registry) => registry,
            None => DeviceMap::default(),
        };
        proof {
            crate::name_map::lemma_keys_with_sorted(registry@.names, device@);
        }
        registry.insert(device, sink);
        self.put(workspace, registry);
    }

    /// Removes `device` from `workspace`. A workspace left without a device
    /// loses its entry. Unknown names change nothing.
    pub fn unsubscribe(&mut self, workspace: &String, device: &String)
        requires
            old(self).wf(),
        ensures
            final(self).wf(),
            final(self)@ == if old(self)@.contains_key(workspace@) {
                with_registry(old(self)@, workspace@, old(self)@[workspace@].unsubscribed(device@))
            } else {
                old(self)@
            },
    {
        match self.take(workspace) {
            Some(mut registry) => {
                registry.remove(device);
                self.put(workspace.clone(), registry);
            },
            None => {
            },
        }
    }

    /// Drops the entry of `workspace` with all its devices.
    pub fn close(&mut self, workspace: &String)
        requires
            old(self).wf(),
        ensures
            final(self).wf(),
            final(self)@ == old(self)@.remove(workspace@),
    {
        let _ = self.take(workspace);
    }

    /// Drops every entry.
    pub fn clear(&mut self)
        ensures
            final(self).wf(),
            final(self)@ == Map::<Seq<char>, Registry<T>>::empty(),
    {
        self.listeners.clear();
    }

    /// Hands a copy of `event` to every listener of `workspace`, in the
    /// order of the registry's walk, and removes each device whose sink
    /// refused; a workspace left without a device is dropped. The report
    /// holds one delivery for each device that was registered.
    pub fn broadcast(&mut self, workspace: String, event: &T) -> (report: Option<Vec<Delivery<T>>>) where T: Clone
        requires
            old(self).wf(),
        ensures
            final(self).wf(),
            broadcast_result(old(self)@, workspace@, *event, report, final(self)@),
    {
        match self.take(&workspace) {
            None => {
                assert(final(self)@ =~= old(self)@);
                None
            },
            Some(mut registry) => {
                let report = registry.broadcast(event);
                self.put(workspace, registry);
                assert(final(self)@ =~= with_registry(
                    old(self)@,
                    workspace@,
                    old(self)@[workspace@].retained(delivered_flags(report@)),
                ));
                Some(report)
            },
        }
    }

    /// Handles one event. Events are handled one at a time, in the order in
    /// which they arrive.
    pub fn receive(&mut self, event: SubscriptionEvent<T>) -> (outcome: ActorOutcome<T>) where T: Clone
        requires
            old(self).wf(),
        ensures
            final(self).wf(),
            match event {
                SubscriptionEvent::ListenerCreated(workspace, device, sink) => {
                    &&& outcome is Created
                    &&& final(self)@ == old(self)@.insert(
                        workspace@,
                        registry_or_empty(old(self)@, workspace@).subscribed(device@, sink),
                    )
                },
                SubscriptionEvent::ListenerRemoved(workspace, device) => {
                    &&& outcome is Removed
                    &&& final(self)@ == if old(self)@.contains_key(workspace@) {
                        with_registry(old(self)@, workspace@, old(self)@[workspace@].unsubscribed(device@))
                    } else {
                        old(self)@
                    }
                },
                SubscriptionEvent::WorkspaceClosed(workspace) => {
                    &&& outcome is WorkspaceClosed
                    &&& final(self)@ == old(self)@.remove(workspace@)
                },
                SubscriptionEvent::Event(workspace, event) => match outcome {
                    ActorOutcome::NoWorkspace => broadcast_result(
                        old(self)@,
                        workspace@,
                        event,
                        None,
                        final(self)@,
                    ),
                    ActorOutcome::Broadcast(report) => broadcast_result(
                        old(self)@,
                        workspace@,
                        event,
                        Some(report),
                        final(self)@,
                    ),
                    _ => false,
                },
                SubscriptionEvent::ApplicationClosing => {
                    &&& outcome is Closed
                    &&& final(self)@ == Map::<Seq<char>, Registry<T>>::empty()
                },
            },
    {
        match event {
            SubscriptionEvent::ListenerCreated(workspace, device, sink) => {
                self.subscribe(workspace, device, sink);
                ActorOutcome::Created
            },
            SubscriptionEvent::ListenerRemoved(workspace, device) => {
                self.unsubscribe(&workspace, &device);
                ActorOutcome::Removed
            },
            SubscriptionEvent::WorkspaceClosed(workspace) => {
                self.close(&workspace);
                ActorOutcome::WorkspaceClosed
            },
            SubscriptionEvent::Event(workspace, event) => match self.broadcast(workspace, &event) {
                Some(report) => ActorOutcome::Broadcast(report),
                None => ActorOutcome::NoWorkspace,
            },
            SubscriptionEvent::ApplicationClosing => {
                self.clear();
                ActorOutcome::Closed
            },
        }
    }
}

} // verus!
