//! Physical-device selection: a device qualifies when it is a real GPU,
//! supports sampler anisotropy, and offers every required device extension.
//! Also the multisample-capability check shared by color and depth targets.

use vstd::prelude::*;

verus! {

/// Physical-device kinds the renderer distinguishes; anything else is
/// carried as its raw numeric identifier.
#[derive(Clone, Copy, Debug, PartialEq, Eq, Structural)]
pub enum DeviceType {
    IntegratedGpu,
    DiscreteGpu,
    Other(u32),
}

/// What one physical device reports, as far as selection reads it.
pub struct DeviceProfile {
    pub device_type: DeviceType,
    pub sampler_anisotropy: bool,
    pub extensions: Vec<String>,
}

/// Whether `name` occurs among the available extension names.
pub open spec fn spec_has_extension(available: Seq<String>, name: Seq<char>) -> bool {
    exists|i: int| 0 <= i < available.len() && available[i]@ == name
}

/// Whether `name` occurs among the available extension names.
pub fn has_extension(available: &Vec<String>, name: &String) -> (r: bool)
    ensures
        r == spec_has_extension(available@, name@),
{
    let mut i: usize = 0;
    while i < available.len()
        invariant
            i <= available@.len(),
            forall|j: int| 0 <= j < i ==> available@[j]@ != name@,
        decreases available@.len() - i,
    {
        if available[i] == *name {
            return true;
        }
        i = i + 1;
    }
    false
}

/// Whether every required extension occurs among the available ones.
pub open spec fn spec_supports_extensions(available: Seq<String>, required: Seq<String>) -> bool {
    forall|k: int| 0 <= k < required.len() ==> spec_has_extension(available, required[k]@)
}

/// Whether every required extension occurs among the available ones.
pub fn supports_extensions(available: &Vec<String>, required: &Vec<String>) -> (r: bool)
    ensures
        r == spec_supports_extensions(available@, required@),
{
    let mut k: usize = 0;
    while k < required.len()
        invariant
            k <= required@.len(),
            forall|j: int| 0 <= j < k ==> spec_has_extension(available@, required@[j]@),
        decreases required@.len() - k,
    {
        if !has_extension(available, &required[k]) {
            return false;
        }
        k = k + 1;
    }
    true
}

/// Whether a device qualifies: an integrated or discrete GPU with sampler
/// anisotropy and every required extension.
pub open spec fn spec_device_suitable(profile: DeviceProfile, required: Seq<String>) -> bool {
    &&& profile.device_type == DeviceType::IntegratedGpu || profile.device_type
        == DeviceType::DiscreteGpu
    &&& profile.sampler_anisotropy
    &&& spec_supports_extensions(profile.extensions@, required)
}

/// Whether a device qualifies: an integrated or discrete GPU with sampler
/// anisotropy and every required extension.
pub fn device_suitable(profile: &DeviceProfile, required_extensions: &Vec<String>) -> (r: bool)
    ensures
        r == spec_device_suitable(*profile, required_extensions@),
{
    let type_ok = match profile.device_type {
        DeviceType::IntegratedGpu => true,
        DeviceType::DiscreteGpu => true,
        DeviceType::Other(_) => false,
    };
    type_ok && profile.sampler_anisotropy && supports_extensions(
        &profile.extensions,
        required_extensions,
    )
}

/// Index of the first qualifying device; `None` exactly when no device
/// qualifies.
pub fn pick_physical_device(
    profiles: &Vec<DeviceProfile>,
    required_extensions: &Vec<String>,
) -> (r: Option<usize>)
    ensures
        match r {
            Some(i) => {
                &&& i < profiles@.len()
                &&& spec_device_suitable(profiles@[i as int], required_extensions@)
                &&& forall|j: int|
                    0 <= j < i ==> !spec_device_suitable(profiles@[j], required_extensions@)
            },
            None => forall|j: int|
                0 <= j < profiles@.len() ==> !spec_device_suitable(
                    profiles@[j],
                    required_extensions@,
                ),
        },
{
    let mut i: usize = 0;
    while i < profiles.len()
        invariant
            i <= profiles@.len(),
            forall|j: int| 0 <= j < i ==> !spec_device_suitable(profiles@[j], required_extensions@),
        decreases profiles@.len() - i,
    {
        if device_suitable(&profiles[i], required_extensions) {
            return Some(i);
        }
        i = i + 1;
    }
    None
}

/// The standard sample-count bits, highest first.
pub open spec fn spec_sample_count_bits() -> Seq<u32> {
    seq![64u32, 32u32, 16u32, 8u32, 4u32, 2u32, 1u32]
}

/// Whether some standard sample count is available for both color and depth
/// framebuffers: their capability masks share one of the standard bits.
pub fn msaa_supported(color_sample_counts: u32, depth_sample_counts: u32) -> (r: bool)
    ensures
        r == exists|i: int|
            0 <= i < spec_sample_count_bits().len()
                && (color_sample_counts & depth_sample_counts) & spec_sample_count_bits()[i]
                == spec_sample_count_bits()[i],
{
    let available: u32 = color_sample_counts & depth_sample_counts;
    let bits: [u32; 7] = [64, 32, 16, 8, 4, 2, 1];
    let mut i: usize = 0;
    while i < 7
        invariant
            i <= 7,
            bits@ == spec_sample_count_bits(),
            available == color_sample_counts & depth_sample_counts,
            forall|j: int|
                0 <= j < i ==> available & spec_sample_count_bits()[j]
                    != spec_sample_count_bits()[j],
        decreases 7 - i,
    {
        if available & bits[i] == bits[i] {
            return true;
        }
        i = i + 1;
    }
    false
}

} // verus!
