//! The simulation router: it hands live input to the one device that is the
//! target of a workspace, and to no other.
//!
//! The router never looks into an input event, so the kind of event is left
//! open.

use vstd::prelude::*;
use tokio::sync::mpsc::UnboundedSender;
use crate::device_map::Registry;
use crate::sink::{deliver, Receipt};
use crate::actor::{registry_or_empty, with_registry, Actor};

verus! {

/// What the router is asked to do.
#[verifier::reject_recursive_types(T)]
pub enum SimulationEvent<T> {
    /// A device offers to replay input.
    AddSimulator(String, String, UnboundedSender<T>),
    /// A device withdraws its offer.
    RemoveSimulator(String, String),
    /// A device is to become the target of a workspace.
    TargetEvent(String, String),
    /// An input event is to be routed to the target of a workspace.
    SimulationEvent(String, T),
    /// A workspace closes.
    WorkspaceClosing(String),
    /// The server shuts down.
    ApplicationClosing,
}

/// What the router did with an event.
#[verifier::reject_recursive_types(T)]
#[must_use]
pub enum RouterOutcome<T> {
    /// The simulator was registered.
    Added,
    /// The simulator was removed, if it was registered.
    Removed,
    /// The device is registered and is the target now.
    TargetSet,
    /// The device is not a registered simulator: the target stays as it was.
    UnknownTarget,
    /// The workspace named no registry: nothing was done.
    NoWorkspace,
    /// The event was handed to the sink of `device`, the target.
    Routed { device: String, receipt: Receipt<T> },
    /// The workspace has no target: the event was dropped.
    NoTarget,
    /// The workspace's registry was dropped.
    WorkspaceClosed,
    /// Every registry was dropped.
    Closed,
}

/// What a request to make `device` the target of `workspace` leads to:
/// only the target changes, and only if `device` is a registered simulator.
pub open spec fn set_target_result<T>(
    before: Map<Seq<char>, Registry<T>>,
    workspace: Seq<char>,
    device: Seq<char>,
    outcome: RouterOutcome<T>,
    after: Map<Seq<char>, Registry<T>>,
) -> bool {
    match outcome {
        RouterOutcome::NoWorkspace => !before.contains_key(workspace) && after == before,
        RouterOutcome::TargetSet => {
            &&& before.contains_key(workspace)
            &&& before[workspace].has(device)
            &&& after == before.insert(workspace, before[workspace].targetting(device))
        },
        RouterOutcome::UnknownTarget => {
            &&& before.contains_key(workspace)
            &&& !before[workspace].has(device)
            &&& after == before
        },
        _ => false,
    }
}

/// What routing `event` in `workspace` may lead to: `outcome` and `after`
/// are a possible outcome for the registries `before`. The event goes to
/// the sink of the target and nowhere else; without a target it is dropped.
/// A target whose sink refuses is gone afterwards.
pub open spec fn route_result<T>(
    before: Map<Seq<char>, Registry<T>>,
    workspace: Seq<char>,
    event: T,
    outcome: RouterOutcome<T>,
    after: Map<Seq<char>, Registry<T>>,
) -> bool {
    match outcome {
        RouterOutcome::NoWorkspace => !before.contains_key(workspace) && after == before,
        RouterOutcome::NoTarget => {
            &&& before.contains_key(workspace)
            &&& before[workspace].target is None
            &&& after == before
        },
        RouterOutcome::Routed { device, receipt } => {
            &&& before.contains_key(workspace)
            &&& before[workspace].target == Some(device@)
            &&& receipt.sink() == before[workspace].sink_of(device@)
            &&& receipt.message() == event
            &&& after == if receipt.taken() {
                before
            } else {
                with_registry(before, workspace, before[workspace].unsubscribed(device@))
            }
        },
        _ => false,
    }
}

/// The simulation router.
#[verifier::reject_recursive_types(T)]
pub struct SimulationActor<T> {
    listeners: Actor<T>,
}

impl<T> View for SimulationActor<T> {
    type V = Map<Seq<char>, Registry<T>>;

    closed spec fn view(&self) -> Map<Seq<char>, Registry<T>> {
        self.listeners@
    }
}

impl<T> Default for SimulationActor<T> {
    /// The router without any simulator.
    fn default() -> (actor: Self)
        ensures
            actor.wf(),
            actor@ == Map::<Seq<char>, Registry<T>>::empty(),
    {
        SimulationActor { listeners: Actor::new() }
    }
}

impl<T> SimulationActor<T> {
    /// The router's table is well formed: every workspace in it has a
    /// well-formed registry with at least one device.
    pub closed spec fn wf(&self) -> bool {
        self.listeners.wf()
    }

    /// In a well-formed router every registry is well formed and holds a
    /// device.
    pub proof fn lemma_populated(&self)
        requires
            self.wf(),
        ensures
            crate::actor::all_populated(self@),
    {
        self.listeners.lemma_populated();
    }

    /// Whether `device` is the target of `workspace`.
    pub fn is_target(&self, workspace: &String, device: &String) -> (targetted: bool)
        requires
            self.wf(),
        ensures
            targetted == (self@.contains_key(workspace@) && self@[workspace@].target == Some(device@)),
    {
        match self.listeners.get(workspace) {
            Some(registry) => registry.is_target(device),
            None => false,
        }
    }

    /// Whether `device` is a registered simulator of `workspace`.
    pub fn is_simulator(&self, workspace: &String, device: &String) -> (registered: bool)
        requires
            self.wf(),
        ensures
            registered == (self@.contains_key(workspace@) && self@[workspace@].has(device@)),
    {
        match self.listeners.get(workspace) {
            Some(registry) => registry.contains(device),
            None => false,
        }
    }

    /// Registers `device` with `sink` as a simulator of `workspace`.
    pub fn add_simulator(&mut self, workspace: String, device: String, sink: UnboundedSender<T>)
        requires
            old(self).wf(),
        ensures
            final(self).wf(),
            final(self)@ == old(self)@.insert(
                workspace@,
                registry_or_empty(old(self)@, workspace@).subscribed(device@, sink),
            ),
    {
        self.listeners.subscribe(workspace, device, sink);
    }

    /// Removes the simulator `device` from `workspace`. If it was the target,
    /// the workspace has no target any more; a workspace left without a
    /// simulator is dropped.
    pub fn remove_simulator(&mut self, workspace: &String, device: &String)
        requires
            old(self).wf(),
        ensures
            final(self).wf(),
            final(self)@ == if old(self)@.contains_key(workspace@) {
                with_registry(old(self)@, workspace@, old(self)@[workspace@].unsubscribed(device@))
            } else {
                old(self)@
            },
    {
        self.listeners.unsubscribe(workspace, device);
    }

    /// Makes `device` the target of `workspace` if it is a registered
    /// simulator. Only the target changes, and nothing is sent to anyone:
    /// input must reach exactly one device.
    pub fn set_target(&mut self, workspace: String, device: String) -> (outcome: RouterOutcome<T>)
        requires
            old(self).wf(),
        ensures
            final(self).wf(),
            set_target_result(old(self)@, workspace@, device@, outcome, final(self)@),
    {
        match self.listeners.take(&workspace) {
            None => {
                assert(final(self)@ =~= old(self)@);
                RouterOutcome::NoWorkspace
            },
            Some(mut registry) => {
                let registered = registry.set_target(device);
                self.listeners.put(workspace, registry);
                if registered {
                    assert(final(self)@ =~= old(self)@.insert(workspace@, old(self)@[workspace@].targetting(device@)));
                    RouterOutcome::TargetSet
                } else {
                    assert(final(self)@ =~= old(self)@);
                    RouterOutcome::UnknownTarget
                }
            },
        }
    }

    /// Routes `event` to the target of `workspace`. Without a target the
    /// event is dropped, never kept for later. A target whose sink refuses is
    /// removed, which leaves the workspace without a target until one is set
    /// again.
    pub fn route(&mut self, workspace: String, event: T) -> (outcome: RouterOutcome<T>)
        requires
            old(self).wf(),
        ensures
            final(self).wf(),
            route_result(old(self)@, workspace@, event, outcome, final(self)@),
    {
        match self.listeners.take(&workspace) {
            None => {
                assert(final(self)@ =~= old(self)@);
                RouterOutcome::NoWorkspace
            },
            Some(mut registry) => {
                let target = match registry.target() {
                    Some(name) => Some(name.clone()),
                    None => None,
                };
                match target {
                    None => {
                        self.listeners.put(workspace, registry);
                        assert(final(self)@ =~= old(self)@);
                        RouterOutcome::NoTarget
                    },
                    Some(device) => {
                        match registry.sink_of(&device) {
                            Some(sink) => {
                                let receipt = deliver(sink, event);
                                if !receipt.delivered() {
                                    registry.remove(&device);
                                }
                                self.listeners.put(workspace, registry);
                                if receipt.delivered() {
                                    assert(final(self)@ =~= old(self)@);
                                } else {
                                    assert(final(self)@ =~= with_registry(
                                        old(self)@,
                                        workspace@,
                                        old(self)@[workspace@].unsubscribed(device@),
                                    ));
                                }
                                RouterOutcome::Routed { device, receipt }
                            },
                            None => {
                                // a target is always registered
                                self.listeners.put(workspace, registry);
                                RouterOutcome::NoTarget
                            },
                        }
                    },
                }
            },
        }
    }

    /// Drops the registry of `workspace` with all its simulators.
    pub fn close_workspace(&mut self, workspace: &String)
        requires
            old(self).wf(),
        ensures
            final(self).wf(),
            final(self)@ == old(self)@.remove(workspace@),
    {
        self.listeners.close(workspace);
    }

    /// Drops every registry.
    pub fn close(&mut self)
        ensures
            final(self).wf(),
            final(self)@ == Map::<Seq<char>, Registry<T>>::empty(),
    {
        self.listeners.clear();
    }

    /// Handles one event. Events are handled one at a time, in the order in
    /// which they arrive.
    pub fn receive(&mut self, event: SimulationEvent<T>) -> (outcome: RouterOutcome<T>)
        requires
            old(self).wf(),
        ensures
            final(self).wf(),
            match event {
                SimulationEvent::AddSimulator(workspace, device, sink) => {
                    &&& outcome is Added
                    &&& final(self)@ == old(self)@.insert(
                        workspace@,
                        registry_or_empty(old(self)@, workspace@).subscribed(device@, sink),
                    )
                },
                SimulationEvent::RemoveSimulator(workspace, device) => {
                    &&& outcome is Removed
                    &&& final(self)@ == if old(self)@.contains_key(workspace@) {
                        with_registry(old(self)@, workspace@, old(self)@[workspace@].unsubscribed(device@))
                    } else {
                        old(self)@
                    }
                },
                SimulationEvent::TargetEvent(workspace, device) => set_target_result(
                    old(self)@,
                    workspace@,
                    device@,
                    outcome,
                    final(self)@,
                ),
                SimulationEvent::SimulationEvent(workspace, event) => route_result(
                    old(self)@,
                    workspace@,
                    event,
                    outcome,
                    final(self)@,
                ),
                SimulationEvent::WorkspaceClosing(workspace) => {
                    &&& outcome is WorkspaceClosed
                    &&& final(self)@ == old(self)@.remove(workspace@)
                },
                SimulationEvent::ApplicationClosing => {
                    &&& outcome is Closed
                    &&& final(self)@ == Map::<Seq<char>, Registry<T>>::empty()
                },
            },
    {
        match event {
            SimulationEvent::AddSimulator(workspace, device, sink) => {
                self.add_simulator(workspace, device, sink);
                RouterOutcome::Added
            },
            SimulationEvent::RemoveSimulator(workspace, device) => {
                self.remove_simulator(&workspace, &device);
                RouterOutcome::Removed
            },
            SimulationEvent::TargetEvent(workspace, device) => self.set_target(workspace, device),
            SimulationEvent::SimulationEvent(workspace, event) => self.route(workspace, event),
            SimulationEvent::WorkspaceClosing(workspace) => {
                self.close_workspace(&workspace);
                RouterOutcome::WorkspaceClosed
            },
            SimulationEvent::ApplicationClosing => {
                self.close();
                RouterOutcome::Closed
            },
        }
    }
}

} // verus!
