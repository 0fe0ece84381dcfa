//! Searches over what the inventory store hands out.

use crate::model::{vms_of, InterfaceView, VmView, VM};
use vstd::prelude::*;

verus! {

/// The first position at or after `i` of an interface with the MAC address
/// `mac`, or the length of `interfaces` when none has it.
pub open spec fn mac_index(interfaces: Seq<InterfaceView>, mac: Seq<char>, i: int) -> int
    decreases interfaces.len() - i,
{
    if 0 <= i < interfaces.len() && interfaces[i].mac != mac {
        mac_index(interfaces, mac, i + 1)
    } else {
        i
    }
}

/// Whether one of the interfaces of `vm` has the MAC address `mac`.
pub open spec fn holds_mac(vm: VmView, mac: Seq<char>) -> bool {
    mac_index(vm.interfaces, mac, 0) < vm.interfaces.len()
}

/// The first position at or after `i` of a machine that holds `mac`, or
/// the length of `vms` when none holds it.
pub open spec fn holder_index(vms: Seq<VmView>, mac: Seq<char>, i: int) -> int
    decreases vms.len() - i,
{
    if 0 <= i < vms.len() && !holds_mac(vms[i], mac) {
        holder_index(vms, mac, i + 1)
    } else {
        i
    }
}

/// Whether a machine of `vms` holds `mac`.
pub open spec fn mac_in_use(vms: Seq<VmView>, mac: Seq<char>) -> bool {
    holder_index(vms, mac, 0) < vms.len()
}

pub proof fn lemma_mac_index(interfaces: Seq<InterfaceView>, mac: Seq<char>, i: int)
    requires
        0 <= i <= interfaces.len(),
    ensures
        i <= mac_index(interfaces, mac, i) <= interfaces.len(),
        mac_index(interfaces, mac, i) < interfaces.len() ==> interfaces[mac_index(
            interfaces,
            mac,
            i,
        )].mac == mac,
        forall|k: int|
            i <= k < mac_index(interfaces, mac, i) ==> (#[trigger] interfaces[k]).mac != mac,
    decreases interfaces.len() - i,
{
    if i < interfaces.len() && interfaces[i].mac != mac {
        lemma_mac_index(interfaces, mac, i + 1);
    }
}

/// The position of the first interface of `vm` with the MAC address `mac`.
pub fn find_interface(vm: &VM, mac: &str) -> (r: Option<usize>)
    ensures
        match r {
            Some(k) => k < vm.interfaces@.len() && k == mac_index(vm@.interfaces, mac@, 0),
            None => !holds_mac(vm@, mac@),
        },
{
    let wanted = String::from_str(mac);
    let mut k: usize = 0;
    while k < vm.interfaces.len()
        invariant
            k <= vm.interfaces@.len(),
            wanted@ == mac@,
            mac_index(vm@.interfaces, mac@, 0) == mac_index(vm@.interfaces, mac@, k as int),
        decreases vm.interfaces@.len() - k,
    {
        if vm.interfaces[k].mac == wanted {
            return Some(k);
        }
        k += 1;
    }
    None
}

/// The machine that holds the MAC address `mac`, and which of its
/// interfaces has it: the first such machine of `vms` and its first such
/// interface.
pub fn get_mac(vms: &Vec<VM>, mac: &str) -> (r: Option<(usize, usize)>)
    ensures
        match r {
            Some((v, k)) => {
                &&& v < vms@.len()
                &&& v == holder_index(vms_of(vms@), mac@, 0)
                &&& k < vms@[v as int].interfaces@.len()
                &&& k == mac_index(vms@[v as int]@.interfaces, mac@, 0)
            },
            None => !mac_in_use(vms_of(vms@), mac@),
        },
{
    let mut v: usize = 0;
    while v < vms.len()
        invariant
            v <= vms@.len(),
            holder_index(vms_of(vms@), mac@, 0) == holder_index(vms_of(vms@), mac@, v as int),
        decreases vms@.len() - v,
    {
        if let Some(k) = find_interface(&vms[v], mac) {
            return Some((v, k));
        }
        v += 1;
    }
    None
}

} // verus!
