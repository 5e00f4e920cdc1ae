//! The list of Bluetooth audio sinks found during discovery.
use vstd::prelude::*;

verus! {

/// A discovered device: its advertised name, if any, and its address.
#[derive(Debug, Clone)]
pub struct BtDevice {
    pub name: Option<String>,
    pub addr: [u8; 6],
}

/// Whether some device of `devices` has address `addr`.
pub open spec fn lists_addr(devices: Seq<BtDevice>, addr: Seq<u8>) -> bool {
    exists|i: int| 0 <= i < devices.len() && (#[trigger] devices[i]).addr@ == addr
}

pub fn same_addr(a: &[u8; 6], b: &[u8; 6]) -> (r: bool)
    ensures
        r == (a@ == b@),
{
    let mut i: usize = 0;
    while i < 6
        invariant
            i <= 6,
            a@.len() == 6,
            b@.len() == 6,
            forall|k: int| 0 <= k < i ==> a@[k] == b@[k],
        decreases 6 - i,
    {
        if a[i] != b[i] {
            return false;
        }
        i = i + 1;
    }
    assert(a@ =~= b@);
    true
}

/// Whether `devices` already holds a device with address `addr`.
pub fn contains_addr(devices: &Vec<BtDevice>, addr: &[u8; 6]) -> (r: bool)
    ensures
        r == lists_addr(devices@, addr@),
{
    let mut i: usize = 0;
    while i < devices.len()
        invariant
            i <= devices@.len(),
            forall|k: int| 0 <= k < i ==> (#[trigger] devices@[k]).addr@ != addr@,
        decreases devices@.len() - i,
    {
        if same_addr(&devices[i].addr, addr) {
            return true;
        }
        i = i + 1;
    }
    false
}

/// Records a discovery: a device whose address is already listed is ignored,
/// so the first report of each address is the one kept.
pub fn record_discovery(devices: &mut Vec<BtDevice>, device: BtDevice)
    ensures
        lists_addr(old(devices)@, device.addr@) ==> final(devices)@ == old(devices)@,
        !lists_addr(old(devices)@, device.addr@) ==> final(devices)@ == old(devices)@.push(device),
{
    if !contains_addr(devices, &device.addr) {
        devices.push(device);
    }
}

} // verus!
