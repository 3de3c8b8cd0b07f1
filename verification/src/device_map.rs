//! The device registry of one workspace: which devices are subscribed, the
//! sink of each, and which of them is the current target.

use vstd::prelude::*;
use tokio::sync::mpsc::UnboundedSender;
use crate::name_map::{
    kept, keys_with, keys_without, lemma_keys_with_sorted, lemma_kept_items, lemma_rank_sorted, rank,
    values_with, values_without, NameMap,
};
use crate::names::strictly_increasing;
use crate::sink::{deliver, Receipt};

verus! {

/// The mathematical model of a registry: the device names in the order in
/// which they are walked, the sink of each, and the name of the target.
#[verifier::reject_recursive_types(T)]
pub struct Registry<T> {
    pub target: Option<Seq<char>>,
    pub names: Seq<Seq<char>>,
    pub sinks: Seq<UnboundedSender<T>>,
}

impl<T> Registry<T> {
    /// Each device has one sink, the names are strictly increasing, and the
    /// target, if there is one, is a registered device.
    pub open spec fn wf(self) -> bool {
        &&& self.names.len() == self.sinks.len()
        &&& strictly_increasing(self.names)
        &&& (self.target matches Some(name) ==> self.names.contains(name))
    }

    /// The registry with no device and no target.
    pub open spec fn empty() -> Self {
        Registry { target: None, names: Seq::empty(), sinks: Seq::empty() }
    }

    /// `name` is registered.
    pub open spec fn has(self, name: Seq<char>) -> bool {
        self.names.contains(name)
    }

    /// The sink registered under `name`.
    pub open spec fn sink_of(self, name: Seq<char>) -> UnboundedSender<T> {
        self.sinks[rank(self.names, name)]
    }

    /// After `name` has subscribed with `sink`: a sink that the name had
    /// before is replaced.
    pub open spec fn subscribed(self, name: Seq<char>, sink: UnboundedSender<T>) -> Self {
        Registry {
            target: self.target,
            names: keys_with(self.names, name),
            sinks: values_with(self.names, self.sinks, name, sink),
        }
    }

    /// After `name` has been removed: a target of that name is cleared.
    pub open spec fn unsubscribed(self, name: Seq<char>) -> Self {
        Registry {
            target: if self.target == Some(name) {
                None
            } else {
                self.target
            },
            names: keys_without(self.names, name),
            sinks: values_without(self.names, self.sinks, name),
        }
    }

    /// After the devices whose flag in `keep` is not set have been removed:
    /// a target among them is cleared.
    pub open spec fn retained(self, keep: Seq<bool>) -> Self {
        Registry {
            target: match self.target {
                Some(name) => if kept(self.names, keep).contains(name) {
                    Some(name)
                } else {
                    None
                },
                None => None,
            },
            names: kept(self.names, keep),
            sinks: kept(self.sinks, keep),
        }
    }

    /// After `name` has been made the target. Only a registered device can be
    /// the target: for any other name nothing changes.
    pub open spec fn targetting(self, name: Seq<char>) -> Self {
        if self.has(name) {
            Registry { target: Some(name), names: self.names, sinks: self.sinks }
        } else {
            self
        }
    }

    /// After the target has been cleared.
    pub open spec fn untargetted(self) -> Self {
        Registry { target: None, names: self.names, sinks: self.sinks }
    }
}

/// One attempt to hand a message to the sink of a device.
#[verifier::reject_recursive_types(T)]
#[must_use]
pub struct Delivery<T> {
    /// The device whose sink was tried.
    pub device: String,
    /// Which sink was handed which message, and whether it took it.
    pub receipt: Receipt<T>,
}

/// The flags of a run of deliveries: which of them succeeded.
pub open spec fn delivered_flags<T>(report: Seq<Delivery<T>>) -> Seq<bool> {
    report.map_values(|delivery: Delivery<T>| delivery.receipt.taken())
}

/// The devices of a run of deliveries.
pub open spec fn delivery_names<T>(report: Seq<Delivery<T>>) -> Seq<Seq<char>> {
    report.map_values(|delivery: Delivery<T>| delivery.device@)
}

/// The messages of a run of deliveries.
pub open spec fn delivery_messages<T>(report: Seq<Delivery<T>>) -> Seq<T> {
    report.map_values(|delivery: Delivery<T>| delivery.receipt.message())
}

/// The sinks of a run of deliveries.
pub open spec fn delivery_sinks<T>(report: Seq<Delivery<T>>) -> Seq<UnboundedSender<T>> {
    report.map_values(|delivery: Delivery<T>| delivery.receipt.sink())
}

impl<T> Registry<T> {
    /// `report` is one round of deliveries to this registry: one delivery to
    /// each registered device, in the order of the walk, each to the sink of
    /// its device.
    pub open spec fn round(self, report: Seq<Delivery<T>>) -> bool {
        &&& delivery_names(report) == self.names
        &&& delivery_sinks(report) == self.sinks
    }
}

/// A device whose delivery failed is no longer registered afterwards, and a
/// device stays registered exactly if one of its deliveries succeeded.
pub proof fn lemma_failed_delivery_unregisters<T>(registry: Registry<T>, keep: Seq<bool>, i: int)
    requires
        registry.wf(),
        keep.len() == registry.names.len(),
        0 <= i < keep.len(),
    ensures
        registry.retained(keep).has(registry.names[i]) == keep[i],
{
    let name = registry.names[i];
    lemma_kept_items(registry.names, keep);
    if registry.retained(keep).has(name) {
        let k = choose|k: int| 0 <= k < registry.names.len() && keep[k] && #[trigger] registry.names[k] == name;
        crate::name_map::lemma_rank_of_key(registry.names, k);
        crate::name_map::lemma_rank_of_key(registry.names, i);
    }
}

/// The registry of one workspace. The target is held by name, so the sink of
/// the target is always the one registered under that name.
#[verifier::reject_recursive_types(T)]
pub struct DeviceMap<T> {
    target: Option<String>,
    devices: NameMap<UnboundedSender<T>>,
}

impl<T> View for DeviceMap<T> {
    type V = Registry<T>;

    closed spec fn view(&self) -> Registry<T> {
        Registry {
            target: match self.target {
                Some(name) => Some(name@),
                None => None,
            },
            names: self.devices.keys(),
            sinks: self.devices.values(),
        }
    }
}

impl<T> Default for DeviceMap<T> {
    /// The registry with no device and no target.
    fn default() -> (map: Self)
        ensures
            map.wf(),
            map@ == Registry::<T>::empty(),
    {
        DeviceMap { target: None, devices: NameMap::new() }
    }
}

impl<T> DeviceMap<T> {
    /// The registry is well formed: see [`Registry::wf`].
    pub open spec fn wf(&self) -> bool {
        self@.wf()
    }

    /// Whether no device is registered.
    pub fn is_empty(&self) -> (empty: bool)
        requires
            self.wf(),
        ensures
            empty == (self@.names.len() == 0),
    {
        self.devices.is_empty()
    }

    /// The number of registered devices.
    pub fn len(&self) -> (n: usize)
        requires
            self.wf(),
        ensures
            n == self@.names.len(),
    {
        self.devices.len()
    }

    /// Whether `device` is registered.
    pub fn contains(&self, device: &String) -> (found: bool)
        requires
            self.wf(),
        ensures
            found == self@.has(device@),
    {
        self.devices.contains_key(device)
    }

    /// The name of the current target.
    pub fn target(&self) -> (name: Option<&String>)
        requires
            self.wf(),
        ensures
            match name {
                Some(name) => self@.target == Some(name@),
                None => self@.target is None,
            },
    {
        match &self.target {
            Some(name) => Some(name),
            None => None,
        }
    }

    /// Whether `device` is the current target.
    pub fn is_target(&self, device: &String) -> (targetted: bool)
        requires
            self.wf(),
        ensures
            targetted == (self@.target == Some(device@)),
    {
        match &self.target {
            Some(name) => *name == *device,
            None => false,
        }
    }

    /// The name of the device at place `i` of the walk.
    pub fn name_at(&self, i: usize) -> (name: &String)
        requires
            self.wf(),
            i < self@.names.len(),
        ensures
            name@ == self@.names[i as int],
    {
        self.devices.key_at(i)
    }

    /// The sink of the device at place `i` of the walk.
    pub fn sink_at(&self, i: usize) -> (sink: &UnboundedSender<T>)
        requires
            self.wf(),
            i < self@.names.len(),
        ensures
            *sink == self@.sinks[i as int],
    {
        self.devices.value_at(i)
    }

    /// The names of the registered devices, in the order of the walk.
    pub fn names(&self) -> (names: Vec<String>)
        requires
            self.wf(),
        ensures
            names@.map_values(|name: String| name@) == self@.names,
    {
        let mut names: Vec<String> = Vec::new();
        let n = self.devices.len();
        let mut i: usize = 0;
        while i < n
            invariant
                self.wf(),
                n == self@.names.len(),
                i <= n,
                names@.map_values(|name: String| name@) == self@.names.take(i as int),
            decreases n - i,
        {
            names.push(self.devices.key_at(i).clone());
            assert(self@.names.take(i + 1) =~= self@.names.take(i as int).push(self@.names[i as int]));
            i = i + 1;
        }
        names
    }

    /// The sink registered under `device`, if it is registered.
    pub fn sink_of(&self, device: &String) -> (sink: Option<&UnboundedSender<T>>)
        requires
            self.wf(),
        ensures
            match sink {
                Some(sink) => self@.has(device@) && *sink == self@.sink_of(device@),
                None => !self@.has(device@),
            },
    {
        self.devices.get(device)
    }

    /// The sink of the current target, if there is a target.
    pub fn target_sink(&self) -> (sink: Option<&UnboundedSender<T>>)
        requires
            self.wf(),
        ensures
            match sink {
                Some(sink) => self@.target is Some && *sink == self@.sink_of(self@.target->0),
                None => self@.target is None,
            },
    {
        match &self.target {
            Some(name) => {
                let sink = self.devices.get(name);
                sink
            },
            None => None,
        }
    }

    /// Registers `device` with `sink`. A device that subscribes again has its
    /// old sink replaced, without notice.
    pub fn insert(&mut self, device: String, sink: UnboundedSender<T>)
        requires
            old(self).wf(),
        ensures
            final(self).wf(),
            final(self)@ == old(self)@.subscribed(device@, sink),
    {
        proof {
            lemma_keys_with_sorted(self.devices.keys(), device@);
            lemma_rank_sorted(self.devices.keys(), device@);
        }
        let ghost names = self.devices.keys();
        let ghost place = rank(names, device@);
        let _ = self.devices.insert(device, sink);
        proof {
            if let Some(name) = self@.target {
                // the target keeps its registration
                let k = choose|k: int| 0 <= k < names.len() && names[k] == name;
                if !names.contains(device@) {
                    if k < place {
                        assert(self.devices.keys()[k] == name);
                    } else {
                        assert(self.devices.keys()[k + 1] == name);
                    }
                }
            }
        }
    }

    /// Removes `device`. If it was the target, there is no target any more.
    pub fn remove(&mut self, device: &String)
        requires
            old(self).wf(),
        ensures
            final(self).wf(),
            final(self)@ == old(self)@.unsubscribed(device@),
    {
        let ghost names = self.devices.keys();
        proof {
            lemma_rank_sorted(names, device@);
        }
        let _ = self.devices.remove(device);
        if self.is_target_name(device) {
            self.target = None;
        }
        proof {
            if let Some(name) = self@.target {
                let k = choose|k: int| 0 <= k < names.len() && names[k] == name;
                let place = rank(names, device@);
                if names.contains(device@) {
                    if k < place {
                        assert(self.devices.keys()[k] == name);
                    } else {
                        assert(self.devices.keys()[k - 1] == name);
                    }
                }
            }
        }
    }

    fn is_target_name(&self, device: &String) -> (targetted: bool)
        ensures
            targetted == (self@.target == Some(device@)),
    {
        match &self.target {
            Some(name) => *name == *device,
            None => false,
        }
    }

    /// Makes `device` the target if it is registered, and tells whether it
    /// is. Nothing is sent to anyone.
    pub fn set_target(&mut self, device: String) -> (registered: bool)
        requires
            old(self).wf(),
        ensures
            final(self).wf(),
            registered == old(self)@.has(device@),
            final(self)@ == old(self)@.targetting(device@),
    {
        if self.devices.contains_key(&device) {
            self.target = Some(device);
            true
        } else {
            false
        }
    }

    /// Clears the target.
    pub fn clear_target(&mut self)
        requires
            old(self).wf(),
        ensures
            final(self).wf(),
            final(self)@ == old(self)@.untargetted(),
    {
        self.target = None;
    }

    /// Removes the devices whose flag in `keep` is not set, as after a round
    /// of deliveries in which those devices' sinks refused.
    pub fn retain(&mut self, keep: &Vec<bool>)
        requires
            old(self).wf(),
            keep@.len() == old(self)@.names.len(),
        ensures
            final(self).wf(),
            final(self)@ == old(self)@.retained(keep@),
    {
        self.devices.retain_flagged(keep);
        let gone = match &self.target {
            Some(name) => !self.devices.contains_key(name),
            None => false,
        };
        if gone {
            self.target = None;
        }
    }

    /// Hands `message` to the sink of the device at place `i` of the walk.
    pub fn deliver_at(&self, i: usize, message: T) -> (delivery: Delivery<T>)
        requires
            self.wf(),
            i < self@.names.len(),
        ensures
            delivery.device@ == self@.names[i as int],
            delivery.receipt.sink() == self@.sinks[i as int],
            delivery.receipt.message() == message,
    {
        let receipt = deliver(self.devices.value_at(i), message);
        Delivery { device: self.devices.key_at(i).clone(), receipt }
    }

    /// Hands a copy of `event` to every registered sink, in the order of the
    /// walk, and removes each device whose sink refused. The report holds one
    /// delivery for each device that was registered.
    pub fn broadcast(&mut self, event: &T) -> (report: Vec<Delivery<T>>) where T: Clone
        requires
            old(self).wf(),
        ensures
            final(self).wf(),
            old(self)@.round(report@),
            forall|i: int| 0 <= i < report@.len() ==> cloned(*event, #[trigger] delivery_messages(report@)[i]),
            final(self)@ == old(self)@.retained(delivered_flags(report@)),
    {
        let mut report: Vec<Delivery<T>> = Vec::new();
        let mut keep: Vec<bool> = Vec::new();
        let n = self.devices.len();
        let mut i: usize = 0;
        while i < n
            invariant
                self.wf(),
                *self == *old(self),
                n == self@.names.len(),
                i <= n,
                report@.len() == i,
                keep@ == delivered_flags(report@),
                delivery_names(report@) == self@.names.take(i as int),
                delivery_sinks(report@) == self@.sinks.take(i as int),
                forall|k: int| 0 <= k < i ==> cloned(*event, #[trigger] delivery_messages(report@)[k]),
            decreases n - i,
        {
            let delivery = self.deliver_at(i, event.clone());
            let ghost before = report@;
            keep.push(delivery.receipt.delivered());
            report.push(delivery);
            assert(delivery_messages(report@) =~= delivery_messages(before).push(delivery.receipt.message()));
            i = i + 1;
        }
        assert(self@.names.take(n as int) =~= self@.names);
        assert(self@.sinks.take(n as int) =~= self@.sinks);
        self.retain(&keep);
        report
    }
}

} // verus!
