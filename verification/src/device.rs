use vstd::prelude::*;

use crate::errors::HalError;

verus! {

/// What one queue family of a physical device supports.
#[derive(Clone, Copy, PartialEq, Eq, Structural, Debug)]
pub struct QueueFamilyProps {
    pub supports_graphics: bool,
    pub supports_present: bool,
}

/// One enumerated physical device: the capabilities of its queue families, in
/// enumeration order.
#[derive(Clone, Debug)]
pub struct AdapterProps {
    pub queue_families: Vec<QueueFamilyProps>,
}

/// A queue family fit to drive this engine supports both graphics operations
/// and presentation to the target surface.
pub open spec fn family_capable(f: QueueFamilyProps) -> bool {
    f.supports_graphics && f.supports_present
}

/// An adapter is capable when at least one of its queue families is.
pub open spec fn adapter_capable(a: AdapterProps) -> bool {
    exists|i: int| 0 <= i < a.queue_families@.len() && family_capable(a.queue_families@[i])
}

/// The selection: index of the chosen adapter and, within it, index of the
/// chosen queue family. The host opens a logical device on that adapter
/// requesting exactly one queue from that family at priority one, with no
/// optional features.
#[derive(Clone, Copy, PartialEq, Eq, Structural, Debug)]
pub struct DeviceChoice {
    pub adapter_index: usize,
    pub queue_family_index: usize,
}

/// Pick the first enumerated adapter exposing a queue family that supports
/// both graphics and presentation, and the first such family within it.
/// Returns `NoCapableDevice` if and only if no adapter qualifies; in that
/// case the host allocates no GPU resources at all.
pub fn select_device(adapters: &Vec<AdapterProps>) -> (r: Result<DeviceChoice, HalError>)
    ensures
        r is Ok <==> exists|i: int|
            0 <= i < adapters@.len() && adapter_capable(adapters@[i]),
        r matches Ok(c) ==> {
            &&& c.adapter_index < adapters@.len()
            &&& c.queue_family_index < adapters@[
                c.adapter_index as int
            ].queue_families@.len()
            &&& family_capable(
                adapters@[c.adapter_index as int].queue_families@[c.queue_family_index as int],
            )
            &&& forall|i: int| 0 <= i < c.adapter_index ==> !adapter_capable(adapters@[i])
            &&& forall|j: int|
                0 <= j < c.queue_family_index ==> !family_capable(
                    adapters@[c.adapter_index as int].queue_families@[j],
                )
        },
        r matches Err(e) ==> e == HalError::NoCapableDevice,
{
    let n = adapters.len();
    let mut a: usize = 0;
    while a < n
        invariant
            n == adapters@.len(),
            a <= n,
            forall|i: int| 0 <= i < a ==> !adapter_capable(adapters@[i]),
        decreases n - a,
    {
        let fams: &Vec<QueueFamilyProps> = &adapters[a].queue_families;
        let m = fams.len();
        let mut q: usize = 0;
        while q < m
            invariant
                n == adapters@.len(),
                a < n,
                fams@ == adapters@[a as int].queue_families@,
                m == fams@.len(),
                q <= m,
                forall|j: int|
                    0 <= j < q ==> !family_capable(adapters@[a as int].queue_families@[j]),
                forall|i: int| 0 <= i < a ==> !adapter_capable(adapters@[i]),
            decreases m - q,
        {
            let f = fams[q];
            if f.supports_graphics && f.supports_present {
                proof {
                    assert(family_capable(adapters@[a as int].queue_families@[q as int]));
                    assert(adapter_capable(adapters@[a as int]));
                }
                return Ok(DeviceChoice { adapter_index: a, queue_family_index: q });
            }
            q += 1;
        }
        proof {
            assert(!adapter_capable(adapters@[a as int]));
        }
        a += 1;
    }
    Err(HalError::NoCapableDevice)
}

} // verus!
