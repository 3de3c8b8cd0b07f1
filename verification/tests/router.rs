use sinnergasm::simulate::{RouterOutcome, SimulationActor, SimulationEvent};
use tokio::sync::mpsc::error::TryRecvError;
use tokio::sync::mpsc::{unbounded_channel, UnboundedReceiver};

fn s(text: &str) -> String {
    text.to_string()
}

fn add(actor: &mut SimulationActor<u32>, workspace: &str, device: &str) -> UnboundedReceiver<u32> {
    let (sender, receiver) = unbounded_channel();
    let outcome = actor.receive(SimulationEvent::AddSimulator(s(workspace), s(device), sender));
    assert!(matches!(outcome, RouterOutcome::Added));
    receiver
}

/// Asserts that `outcome` is an event routed to `device`, and returns
/// whether its sink took the event.
fn routed(outcome: RouterOutcome<u32>, device: &str) -> bool {
    match outcome {
        RouterOutcome::Routed { device: target, receipt } => {
            assert_eq!(target, device);
            receipt.delivered()
        }
        _ => panic!("the event was not routed"),
    }
}

#[test]
fn input_goes_to_the_target_only() {
    let mut actor = SimulationActor::default();
    let mut laptop = add(&mut actor, "W", "laptop");
    let mut tablet = add(&mut actor, "W", "tablet");

    // without a target the event is dropped, not kept
    assert!(matches!(actor.receive(SimulationEvent::SimulationEvent(s("W"), 1)), RouterOutcome::NoTarget));
    assert!(matches!(actor.receive(SimulationEvent::TargetEvent(s("W"), s("laptop"))), RouterOutcome::TargetSet));
    assert_eq!(laptop.try_recv(), Err(TryRecvError::Empty));
    assert_eq!(tablet.try_recv(), Err(TryRecvError::Empty));

    assert!(routed(actor.receive(SimulationEvent::SimulationEvent(s("W"), 2)), "laptop"));
    assert_eq!(laptop.try_recv(), Ok(2));
    assert_eq!(laptop.try_recv(), Err(TryRecvError::Empty));
    assert_eq!(tablet.try_recv(), Err(TryRecvError::Empty));

    assert!(matches!(actor.set_target(s("W"), s("tablet")), RouterOutcome::TargetSet));
    assert!(routed(actor.route(s("W"), 3), "tablet"));
    assert_eq!(tablet.try_recv(), Ok(3));
    assert_eq!(laptop.try_recv(), Err(TryRecvError::Empty));
}

#[test]
fn unknown_target_leaves_the_target_in_place() {
    let mut actor = SimulationActor::default();
    let mut laptop = add(&mut actor, "W", "laptop");
    actor.set_target(s("W"), s("laptop"));
    assert!(matches!(actor.set_target(s("W"), s("desktop")), RouterOutcome::UnknownTarget));
    assert!(matches!(actor.set_target(s("V"), s("laptop")), RouterOutcome::NoWorkspace));
    assert!(actor.is_target(&s("W"), &s("laptop")));
    assert!(routed(actor.route(s("W"), 4), "laptop"));
    assert_eq!(laptop.try_recv(), Ok(4));
    assert!(matches!(actor.route(s("V"), 4), RouterOutcome::NoWorkspace));
}

#[test]
fn closed_target_is_removed_and_routing_stops() {
    let mut actor = SimulationActor::default();
    let laptop = add(&mut actor, "W", "laptop");
    let mut tablet = add(&mut actor, "W", "tablet");
    actor.set_target(s("W"), s("laptop"));
    drop(laptop);
    assert!(!routed(actor.route(s("W"), 5), "laptop"));
    assert!(!actor.is_simulator(&s("W"), &s("laptop")));
    assert!(actor.is_simulator(&s("W"), &s("tablet")));
    assert!(!actor.is_target(&s("W"), &s("laptop")));
    assert!(matches!(actor.route(s("W"), 6), RouterOutcome::NoTarget));
    assert_eq!(tablet.try_recv(), Err(TryRecvError::Empty));
    // routing resumes only when a target is set again
    actor.set_target(s("W"), s("tablet"));
    assert!(routed(actor.route(s("W"), 7), "tablet"));
    assert_eq!(tablet.try_recv(), Ok(7));
}

#[test]
fn closed_last_simulator_drops_the_workspace() {
    let mut actor = SimulationActor::default();
    let laptop = add(&mut actor, "W", "laptop");
    actor.set_target(s("W"), s("laptop"));
    drop(laptop);
    assert!(!routed(actor.route(s("W"), 5), "laptop"));
    assert!(matches!(actor.route(s("W"), 5), RouterOutcome::NoWorkspace));
}

#[test]
fn removing_the_target_clears_it() {
    let mut actor = SimulationActor::default();
    let _laptop = add(&mut actor, "W", "laptop");
    let mut tablet = add(&mut actor, "W", "tablet");
    actor.set_target(s("W"), s("laptop"));
    assert!(matches!(actor.receive(SimulationEvent::RemoveSimulator(s("W"), s("tablet"))), RouterOutcome::Removed));
    assert!(actor.is_target(&s("W"), &s("laptop")));
    assert_eq!(tablet.try_recv(), Err(TryRecvError::Disconnected));
    assert!(matches!(actor.receive(SimulationEvent::RemoveSimulator(s("W"), s("laptop"))), RouterOutcome::Removed));
    assert!(!actor.is_target(&s("W"), &s("laptop")));
    assert!(matches!(actor.route(s("W"), 1), RouterOutcome::NoWorkspace));
}

#[test]
fn router_closes_workspaces() {
    let mut actor = SimulationActor::default();
    let mut laptop = add(&mut actor, "W", "laptop");
    let mut tablet = add(&mut actor, "V", "tablet");
    assert!(matches!(actor.receive(SimulationEvent::WorkspaceClosing(s("W"))), RouterOutcome::WorkspaceClosed));
    assert_eq!(laptop.try_recv(), Err(TryRecvError::Disconnected));
    assert!(actor.is_simulator(&s("V"), &s("tablet")));
    assert!(matches!(actor.receive(SimulationEvent::ApplicationClosing), RouterOutcome::Closed));
    assert_eq!(tablet.try_recv(), Err(TryRecvError::Disconnected));
}
