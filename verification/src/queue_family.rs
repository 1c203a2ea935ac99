//! Queue-family selection: the graphics-capable family, the family that can
//! present to the surface, and the set of distinct families a logical device
//! must create queues for.

use vstd::prelude::*;

verus! {

/// Whether a queue family's capability bitmask contains every bit of
/// `required`.
pub open spec fn spec_queue_flags_contain(queue_flags: u32, required: u32) -> bool {
    queue_flags & required == required
}

/// Index of the first queue family whose capability flags contain all of
/// `required_flags`; `None` exactly when no family qualifies.
pub fn queue_family_with_flags(family_flags: &Vec<u32>, required_flags: u32) -> (r: Option<u32>)
    requires
        family_flags@.len() <= u32::MAX,
    ensures
        match r {
            Some(i) => {
                &&& i < family_flags@.len()
                &&& spec_queue_flags_contain(family_flags@[i as int], required_flags)
                &&& forall|j: int|
                    0 <= j < i ==> !spec_queue_flags_contain(family_flags@[j], required_flags)
            },
            None => forall|j: int|
                0 <= j < family_flags@.len() ==> !spec_queue_flags_contain(
                    family_flags@[j],
                    required_flags,
                ),
        },
{
    let mut i: usize = 0;
    while i < family_flags.len()
        invariant
            i <= family_flags@.len(),
            family_flags@.len() <= u32::MAX,
            forall|j: int| 0 <= j < i ==> !spec_queue_flags_contain(family_flags@[j], required_flags),
        decreases family_flags@.len() - i,
    {
        if family_flags[i] & required_flags == required_flags {
            return Some(i as u32);
        }
        i = i + 1;
    }
    None
}

/// Index of the first queue family reported able to present to the surface;
/// `None` exactly when none can.
pub fn present_queue_family(surface_support: &Vec<bool>) -> (r: Option<u32>)
    requires
        surface_support@.len() <= u32::MAX,
    ensures
        match r {
            Some(i) => {
                &&& i < surface_support@.len()
                &&& surface_support@[i as int]
                &&& forall|j: int| 0 <= j < i ==> !surface_support@[j]
            },
            None => forall|j: int| 0 <= j < surface_support@.len() ==> !surface_support@[j],
        },
{
    let mut i: usize = 0;
    while i < surface_support.len()
        invariant
            i <= surface_support@.len(),
            surface_support@.len() <= u32::MAX,
            forall|j: int| 0 <= j < i ==> !surface_support@[j],
        decreases surface_support@.len() - i,
    {
        if surface_support[i] {
            return Some(i as u32);
        }
        i = i + 1;
    }
    None
}

/// The distinct queue families the logical device creates queues for: the
/// graphics family, and the present family when it differs.
pub fn unique_queue_families(graphics_family: u32, present_family: u32) -> (families: Vec<u32>)
    ensures
        graphics_family == present_family ==> families@ == seq![graphics_family],
        graphics_family != present_family ==> families@ == seq![graphics_family, present_family],
{
    let mut families: Vec<u32> = Vec::new();
    families.push(graphics_family);
    if graphics_family != present_family {
        families.push(present_family);
        proof {
            assert(families@ =~= seq![graphics_family, present_family]);
        }
    } else {
        proof {
            assert(families@ =~= seq![graphics_family]);
        }
    }
    families
}

} // verus!
