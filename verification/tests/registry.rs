use sinnergasm::actor::{Actor, ActorOutcome, SubscriptionEvent};
use sinnergasm::device_map::{Delivery, DeviceMap};
use sinnergasm::name_map::NameMap;
use sinnergasm::names::name_precedes;
use tokio::sync::mpsc::error::TryRecvError;
use tokio::sync::mpsc::unbounded_channel;

fn s(text: &str) -> String {
    text.to_string()
}

fn deliveries<T>(report: &[Delivery<T>]) -> Vec<(String, bool)> {
    report.iter().map(|d| (d.device.clone(), d.receipt.delivered())).collect()
}

fn expected(deliveries: &[(&str, bool)]) -> Vec<(String, bool)> {
    deliveries.iter().map(|(device, delivered)| (s(device), *delivered)).collect()
}

#[test]
fn names_sort_by_their_bytes() {
    assert!(name_precedes(&s("a"), &s("b")));
    assert!(!name_precedes(&s("b"), &s("a")));
    assert!(!name_precedes(&s("a"), &s("a")));
    assert!(name_precedes(&s(""), &s("a")));
    assert!(!name_precedes(&s("a"), &s("")));
    assert!(!name_precedes(&s(""), &s("")));
    assert!(name_precedes(&s("desk"), &s("desktop")));
    assert!(!name_precedes(&s("desktop"), &s("desk")));
    assert!(name_precedes(&s("Z"), &s("a")));
    assert!(name_precedes(&s("desktop"), &s("laptop")));
    assert!(name_precedes(&s("z"), &s("\u{e9}")));
    assert!(name_precedes(&s("\u{e9}"), &s("\u{4e2d}")));
}

#[test]
fn names_sort_as_strings_do() {
    let names = ["", "a", "A", "ab", "abc", "b", "desktop", "laptop", "\u{e9}t\u{e9}", "\u{1f600}", "z"];
    for first in names.iter() {
        for second in names.iter() {
            assert_eq!(name_precedes(&s(first), &s(second)), first < second);
        }
    }
}

#[test]
fn name_map_keeps_its_entries_sorted() {
    let mut map: NameMap<u32> = NameMap::new();
    assert!(map.is_empty());
    assert_eq!(map.insert(s("laptop"), 1), None);
    assert_eq!(map.insert(s("desktop"), 2), None);
    assert_eq!(map.insert(s("phone"), 3), None);
    assert_eq!(map.len(), 3);
    assert_eq!(map.key_at(0), "desktop");
    assert_eq!(map.key_at(1), "laptop");
    assert_eq!(map.key_at(2), "phone");
    assert_eq!(*map.value_at(0), 2);
    assert_eq!(*map.value_at(1), 1);
    assert_eq!(*map.value_at(2), 3);
    assert_eq!(map.lower_bound(&s("a")), 0);
    assert_eq!(map.lower_bound(&s("desktop")), 0);
    assert_eq!(map.lower_bound(&s("e")), 1);
    assert_eq!(map.lower_bound(&s("laptop")), 1);
    assert_eq!(map.lower_bound(&s("z")), 3);
    assert_eq!(map.find(&s("laptop")), Some(1));
    assert_eq!(map.find(&s("tablet")), None);
    assert_eq!(map.get(&s("phone")), Some(&3));
    assert_eq!(map.get(&s("tablet")), None);
    assert!(map.contains_key(&s("desktop")));
    assert!(!map.contains_key(&s("desk")));
}

#[test]
fn name_map_replaces_and_removes() {
    let mut map: NameMap<u32> = NameMap::new();
    map.insert(s("b"), 1);
    map.insert(s("a"), 2);
    map.insert(s("c"), 3);
    assert_eq!(map.insert(s("b"), 10), Some(1));
    assert_eq!(map.len(), 3);
    assert_eq!(map.get(&s("b")), Some(&10));
    *map.value_at_mut(0) = 20;
    assert_eq!(map.get(&s("a")), Some(&20));
    assert_eq!(map.remove(&s("b")), Some(10));
    assert_eq!(map.remove(&s("b")), None);
    assert_eq!(map.len(), 2);
    assert_eq!(map.key_at(0), "a");
    assert_eq!(map.key_at(1), "c");
    assert_eq!(map.remove_at(0), (s("a"), 20));
    assert_eq!(map.len(), 1);
    map.clear();
    assert!(map.is_empty());
}

#[test]
fn name_map_retains_flagged_entries() {
    let mut map: NameMap<u32> = NameMap::new();
    for (name, value) in [("a", 1), ("b", 2), ("c", 3), ("d", 4), ("e", 5)] {
        map.insert(s(name), value);
    }
    map.retain_flagged(&vec![true, false, false, true, true]);
    assert_eq!(map.len(), 3);
    assert_eq!((map.key_at(0).as_str(), *map.value_at(0)), ("a", 1));
    assert_eq!((map.key_at(1).as_str(), *map.value_at(1)), ("d", 4));
    assert_eq!((map.key_at(2).as_str(), *map.value_at(2)), ("e", 5));
    map.retain_flagged(&vec![false, false, false]);
    assert!(map.is_empty());
    map.retain_flagged(&vec![]);
    assert!(map.is_empty());
}

#[test]
fn registry_tracks_devices_and_target() {
    let mut registry: DeviceMap<u8> = DeviceMap::default();
    assert!(registry.is_empty());
    assert_eq!(registry.target(), None);
    let (b_tx, mut b_rx) = unbounded_channel();
    let (a_tx, mut a_rx) = unbounded_channel();
    registry.insert(s("b"), b_tx);
    registry.insert(s("a"), a_tx);
    assert_eq!(registry.len(), 2);
    assert_eq!(registry.name_at(0), "a");
    assert_eq!(registry.name_at(1), "b");
    assert!(registry.contains(&s("a")));
    assert!(!registry.contains(&s("c")));
    assert!(registry.target_sink().is_none());

    assert!(!registry.set_target(s("c")));
    assert_eq!(registry.target(), None);
    assert!(registry.set_target(s("b")));
    assert_eq!(registry.target(), Some(&s("b")));
    assert!(registry.is_target(&s("b")));
    assert!(!registry.is_target(&s("a")));

    registry.target_sink().unwrap().send(7).unwrap();
    assert_eq!(b_rx.try_recv(), Ok(7));
    registry.sink_of(&s("a")).unwrap().send(8).unwrap();
    registry.sink_at(0).send(9).unwrap();
    assert_eq!(a_rx.try_recv(), Ok(8));
    assert_eq!(a_rx.try_recv(), Ok(9));
    assert!(registry.sink_of(&s("c")).is_none());

    registry.remove(&s("a"));
    assert_eq!(registry.target(), Some(&s("b")));
    registry.remove(&s("b"));
    assert_eq!(registry.target(), None);
    assert!(registry.is_empty());
}

#[test]
fn registry_clears_a_target_that_is_not_retained() {
    let mut registry: DeviceMap<u8> = DeviceMap::default();
    let (a_tx, _a_rx) = unbounded_channel();
    let (b_tx, _b_rx) = unbounded_channel();
    registry.insert(s("a"), a_tx);
    registry.insert(s("b"), b_tx);
    registry.set_target(s("a"));
    registry.retain(&vec![true, false]);
    assert_eq!(registry.target(), Some(&s("a")));
    assert_eq!(registry.len(), 1);
    registry.insert(s("b"), unbounded_channel().0);
    registry.retain(&vec![false, true]);
    assert_eq!(registry.target(), None);
    assert_eq!(registry.name_at(0), "b");
    registry.set_target(s("b"));
    registry.clear_target();
    assert_eq!(registry.target(), None);
}

#[test]
fn registry_broadcast_removes_closed_sinks() {
    let mut registry: DeviceMap<u8> = DeviceMap::default();
    let (a_tx, mut a_rx) = unbounded_channel();
    let (b_tx, b_rx) = unbounded_channel();
    let (c_tx, mut c_rx) = unbounded_channel();
    registry.insert(s("a"), a_tx);
    registry.insert(s("b"), b_tx);
    registry.insert(s("c"), c_tx);
    registry.set_target(s("b"));
    drop(b_rx);
    let report = registry.broadcast(&5);
    assert_eq!(deliveries(&report), expected(&[("a", true), ("b", false), ("c", true)]));
    let probe = registry.deliver_at(1, 6);
    assert_eq!((probe.device.as_str(), probe.receipt.delivered()), ("c", true));
    assert_eq!(c_rx.try_recv(), Ok(5));
    assert_eq!(c_rx.try_recv(), Ok(6));
    assert_eq!(a_rx.try_recv(), Ok(5));
    assert!(!registry.contains(&s("b")));
    assert_eq!(registry.target(), None);
    assert_eq!(registry.len(), 2);
}

#[test]
fn actor_hands_events_to_the_listeners_of_one_workspace() {
    let mut actor: Actor<u8> = Actor::new();
    let (a_tx, mut a_rx) = unbounded_channel();
    let (b_tx, mut b_rx) = unbounded_channel();
    let (c_tx, mut c_rx) = unbounded_channel();
    assert!(matches!(actor.receive(SubscriptionEvent::ListenerCreated(s("W"), s("a"), a_tx)), ActorOutcome::Created));
    assert!(matches!(actor.receive(SubscriptionEvent::ListenerCreated(s("W"), s("b"), b_tx)), ActorOutcome::Created));
    assert!(matches!(actor.receive(SubscriptionEvent::ListenerCreated(s("V"), s("c"), c_tx)), ActorOutcome::Created));
    match actor.receive(SubscriptionEvent::Event(s("W"), 1)) {
        ActorOutcome::Broadcast(report) => assert_eq!(deliveries(&report), expected(&[("a", true), ("b", true)])),
        _ => panic!("nothing was handed out"),
    }
    assert_eq!(a_rx.try_recv(), Ok(1));
    assert_eq!(b_rx.try_recv(), Ok(1));
    assert_eq!(c_rx.try_recv(), Err(TryRecvError::Empty));
    assert!(matches!(actor.receive(SubscriptionEvent::Event(s("X"), 1)), ActorOutcome::NoWorkspace));

    assert!(matches!(actor.receive(SubscriptionEvent::ListenerRemoved(s("W"), s("a"))), ActorOutcome::Removed));
    match actor.receive(SubscriptionEvent::Event(s("W"), 2)) {
        ActorOutcome::Broadcast(report) => assert_eq!(deliveries(&report), expected(&[("b", true)])),
        _ => panic!("nothing was handed out"),
    }
    assert_eq!(a_rx.try_recv(), Err(TryRecvError::Disconnected));
    assert_eq!(b_rx.try_recv(), Ok(2));

    assert!(matches!(actor.receive(SubscriptionEvent::WorkspaceClosed(s("W"))), ActorOutcome::WorkspaceClosed));
    assert!(!actor.contains(&s("W")));
    assert!(actor.contains(&s("V")));
    assert!(matches!(actor.receive(SubscriptionEvent::ApplicationClosing), ActorOutcome::Closed));
    assert!(!actor.contains(&s("V")));
    assert_eq!(c_rx.try_recv(), Err(TryRecvError::Disconnected));
}

#[test]
fn actor_drops_a_workspace_whose_listeners_are_gone() {
    let mut actor: Actor<u8> = Actor::new();
    let (a_tx, a_rx) = unbounded_channel();
    actor.subscribe(s("W"), s("a"), a_tx);
    assert!(actor.get(&s("W")).is_some());
    drop(a_rx);
    let report = actor.broadcast(s("W"), &1).unwrap();
    assert_eq!(deliveries(&report), expected(&[("a", false)]));
    assert!(!actor.contains(&s("W")));
    assert!(actor.get(&s("W")).is_none());
    assert!(actor.broadcast(s("W"), &1).is_none());

    // taking a registry out and putting it back empty drops the workspace
    let (b_tx, _b_rx) = unbounded_channel();
    actor.subscribe(s("V"), s("b"), b_tx);
    let mut registry = actor.take(&s("V")).unwrap();
    assert!(!actor.contains(&s("V")));
    registry.remove(&s("b"));
    actor.put(s("V"), registry);
    assert!(!actor.contains(&s("V")));
    assert!(actor.take(&s("V")).is_none());
}
