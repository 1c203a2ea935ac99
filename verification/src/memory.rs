//! Device-memory type selection.
//!
//! An allocation must use a memory type that the resource's requirements
//! allow (one of the bits in `memory_type_bits`) and whose property flags
//! contain everything the caller asks for (device-local, or host-visible and
//! host-coherent for staging).

use vstd::prelude::*;

verus! {

/// One memory type a physical device reports: its property-flag bitmask.
#[derive(Clone, Copy, Debug, PartialEq, Eq, Structural)]
pub struct MemoryType {
    pub property_flags: u32,
}

/// Whether memory type `i` suits an allocation: the resource's
/// `memory_type_bits` admit index `i` and the type's property flags contain
/// all required bits.
pub open spec fn spec_memory_type_suits(
    memory_type: MemoryType,
    i: int,
    memory_type_bits: u32,
    required_flags: u32,
) -> bool {
    &&& memory_type.property_flags & required_flags == required_flags
    &&& memory_type_bits >> i as u32 & 1u32 == 1u32
}

/// Index of the first reported memory type that suits the allocation;
/// `None` exactly when no type does.
pub fn memory_type_index(
    memory_types: &Vec<MemoryType>,
    memory_type_bits: u32,
    required_flags: u32,
) -> (r: Option<u32>)
    requires
        memory_types@.len() <= 32,
    ensures
        match r {
            Some(i) => {
                &&& i < memory_types@.len()
                &&& spec_memory_type_suits(
                    memory_types@[i as int],
                    i as int,
                    memory_type_bits,
                    required_flags,
                )
                &&& forall|j: int|
                    0 <= j < i ==> !spec_memory_type_suits(
                        memory_types@[j],
                        j,
                        memory_type_bits,
                        required_flags,
                    )
            },
            None => forall|j: int|
                0 <= j < memory_types@.len() ==> !spec_memory_type_suits(
                    memory_types@[j],
                    j,
                    memory_type_bits,
                    required_flags,
                ),
        },
{
    let mut i: usize = 0;
    while i < memory_types.len()
        invariant
            i <= memory_types@.len(),
            memory_types@.len() <= 32,
            forall|j: int|
                0 <= j < i ==> !spec_memory_type_suits(
                    memory_types@[j],
                    j,
                    memory_type_bits,
                    required_flags,
                ),
        decreases memory_types@.len() - i,
    {
        let flags_match: bool = memory_types[i].property_flags & required_flags == required_flags;
        let bit_set: bool = memory_type_bits >> (i as u32) & 1u32 == 1u32;
        if flags_match && bit_set {
            return Some(i as u32);
        }
        i = i + 1;
    }
    None
}

} // verus!
