//! Choosing the queue family the device is created with. This design uses a
//! single family for both graphics and transfer work.

use vstd::prelude::*;

verus! {

/// Raw API bit a queue family sets when it supports graphics work.
pub const QUEUE_GRAPHICS_BIT: u32 = 1;

/// Whether a family's flag word advertises graphics support.
pub open spec fn supports_graphics(flags: u32) -> bool {
    flags & QUEUE_GRAPHICS_BIT == QUEUE_GRAPHICS_BIT
}

/// Whether a flag word advertises graphics support.
pub fn queue_flags_graphics(flags: u32) -> (r: bool)
    ensures
        r == supports_graphics(flags),
{
    flags & QUEUE_GRAPHICS_BIT == QUEUE_GRAPHICS_BIT
}

/// The queue family the device uses: the first, by index, whose flags
/// advertise graphics. None when the device offers no such family, which this
/// design treats as an unsupported environment.
pub fn select_graphics_queue_family(family_flags: &Vec<u32>) -> (r: Option<usize>)
    ensures
        match r {
            Some(i) => i < family_flags@.len() && supports_graphics(family_flags@[i as int])
                && forall|j: int| 0 <= j < i ==> !supports_graphics(family_flags@[j]),
            None => forall|j: int|
                0 <= j < family_flags@.len() ==> !supports_graphics(family_flags@[j]),
        },
{
    let mut i: usize = 0;
    while i < family_flags.len()
        invariant
            0 <= i <= family_flags@.len(),
            forall|j: int| 0 <= j < i ==> !supports_graphics(family_flags@[j]),
        decreases family_flags@.len() - i,
    {
        if queue_flags_graphics(family_flags[i]) {
            return Some(i);
        }
        i += 1;
    }
    None
}

} // verus!
