//! What a device shows of its workspace: the other devices, to each of which
//! the user can hand the keyboard and mouse.

use vstd::prelude::*;
use crate::messages::Device;

verus! {

/// The devices of `devices` that are not named `device`, in their order.
pub open spec fn others(devices: Seq<Device>, device: Seq<char>) -> Seq<Device> {
    devices.filter(|other: Device| other.name@ != device)
}

/// Picks the devices of a workspace to which `device` can hand over: all
/// but `device` itself.
pub fn other_devices(devices: Vec<Device>, device: &String) -> (shown: Vec<Device>)
    ensures
        shown@ == others(devices@, device@),
{
    let ghost all = devices@;
    let ghost wanted = |other: Device| other.name@ != device@;
    let mut devices = devices;
    let mut shown: Vec<Device> = Vec::new();
    let ghost mut seen: int = 0;
    assert(all.take(0).filter(wanted) =~= Seq::<Device>::empty()) by {
        reveal(Seq::filter);
    }
    while devices.len() > 0
        invariant
            0 <= seen <= all.len(),
            devices@ == all.skip(seen),
            shown@ == all.take(seen).filter(wanted),
            wanted == |other: Device| other.name@ != device@,
        decreases devices@.len(),
    {
        let next = devices.remove(0);
        proof {
            assert(all.take(seen + 1).drop_last() =~= all.take(seen));
            reveal(Seq::filter);
        }
        if next.name != *device {
            shown.push(next);
        }
        proof {
            seen = seen + 1;
        }
    }
    shown
}

} // verus!
