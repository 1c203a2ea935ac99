//! Image geometry, layout-transition rules, and the mipmap-generation plan.
//!
//! A texture image of size `W x H` carries a full mipmap chain; the number of
//! levels and the size of each level are fixed by the base size alone. The
//! functions here compute those values, the pipeline-barrier masks for each
//! supported layout transition, and the ordered command plan that fills the
//! chain (barrier, blit, barrier per level), which the application shell
//! replays against the device.

use vstd::prelude::*;
use vstd::arithmetic::div_mod::lemma_fundamental_div_mod_converse;

verus! {

/// Mathematical floor of the base-2 logarithm; `floor_log2(1) == 0`.
pub open spec fn floor_log2(n: nat) -> nat
    decreases n,
{
    if n <= 1 {
        0
    } else {
        1 + floor_log2(n / 2)
    }
}

/// `floor_log2` grows strictly slower than its argument.
pub proof fn lemma_floor_log2_lt(n: nat)
    requires
        n >= 1,
    ensures
        floor_log2(n) < n,
    decreases n,
{
    if n > 1 {
        lemma_floor_log2_lt(n / 2);
    }
}

/// Number of mip levels for a base image of `width x height`:
/// `floor(log2(max(width, height))) + 1`.
pub open spec fn spec_mip_level_count(width: nat, height: nat) -> nat {
    floor_log2(if width >= height {
        width
    } else {
        height
    }) + 1
}

/// Mip level count for an image of the given base size.
pub fn mip_level_count(width: u32, height: u32) -> (levels: u32)
    requires
        width >= 1,
        height >= 1,
    ensures
        levels == spec_mip_level_count(width as nat, height as nat),
{
    let mx: u32 = if width >= height {
        width
    } else {
        height
    };
    proof {
        lemma_floor_log2_lt(mx as nat);
    }
    let mut m: u32 = mx;
    let mut levels: u32 = 1;
    while m > 1
        invariant
            1 <= m <= mx,
            levels + floor_log2(m as nat) == 1 + floor_log2(mx as nat),
            floor_log2(mx as nat) < mx,
        decreases m,
    {
        m = m / 2;
        levels = levels + 1;
    }
    levels
}

/// One dimension of the next-smaller mip level: halved, but never below 1.
pub open spec fn half_dim(d: u32) -> u32 {
    if d > 1 {
        (d / 2) as u32
    } else {
        1u32
    }
}

/// One dimension of mip level `level`, starting from base dimension `d`.
pub open spec fn mip_dim(d: u32, level: nat) -> u32
    decreases level,
{
    if level == 0 {
        d
    } else {
        half_dim(mip_dim(d, (level - 1) as nat))
    }
}

/// The image layouts the renderer names: the transfer pipeline moves images
/// through the first four, and the render pass leaves its attachments in the
/// last three.
#[derive(Clone, Copy, Debug, PartialEq, Eq, Structural)]
pub enum ImageLayout {
    Undefined,
    TransferDstOptimal,
    TransferSrcOptimal,
    ShaderReadOnlyOptimal,
    ColorAttachmentOptimal,
    DepthStencilAttachmentOptimal,
    PresentSrc,
}

/// Memory-access kinds named in a pipeline barrier.
#[derive(Clone, Copy, Debug, PartialEq, Eq, Structural)]
pub enum AccessMask {
    Empty,
    TransferWrite,
    TransferRead,
    ShaderRead,
}

/// Pipeline stages named in a pipeline barrier.
#[derive(Clone, Copy, Debug, PartialEq, Eq, Structural)]
pub enum StageMask {
    TopOfPipe,
    Transfer,
    FragmentShader,
}

/// The four masks that parameterize an image-layout transition barrier.
#[derive(Clone, Copy, Debug, PartialEq, Eq, Structural)]
pub struct BarrierMasks {
    pub src_access: AccessMask,
    pub dst_access: AccessMask,
    pub src_stage: StageMask,
    pub dst_stage: StageMask,
}

/// Barrier masks for each layout transition the pipeline performs; `None`
/// for a pair of layouts the pipeline never moves between.
pub open spec fn spec_transition_masks(old_layout: ImageLayout, new_layout: ImageLayout) -> Option<
    BarrierMasks,
> {
    if old_layout is Undefined && new_layout is TransferDstOptimal {
        Some(
            BarrierMasks {
                src_access: AccessMask::Empty,
                dst_access: AccessMask::TransferWrite,
                src_stage: StageMask::TopOfPipe,
                dst_stage: StageMask::Transfer,
            },
        )
    } else if old_layout is TransferDstOptimal && new_layout is ShaderReadOnlyOptimal {
        Some(
            BarrierMasks {
                src_access: AccessMask::TransferWrite,
                dst_access: AccessMask::ShaderRead,
                src_stage: StageMask::Transfer,
                dst_stage: StageMask::FragmentShader,
            },
        )
    } else {
        None
    }
}

/// Access and stage masks for a whole-image layout transition. Exactly the
/// transitions undefined-to-transfer-dst and transfer-dst-to-shader-read are
/// supported; any other pair is rejected rather than silently given empty
/// masks.
pub fn transition_masks(old_layout: ImageLayout, new_layout: ImageLayout) -> (masks: Option<
    BarrierMasks,
>)
    ensures
        masks == spec_transition_masks(old_layout, new_layout),
{
    match (old_layout, new_layout) {
        (ImageLayout::Undefined, ImageLayout::TransferDstOptimal) => Some(
            BarrierMasks {
                src_access: AccessMask::Empty,
                dst_access: AccessMask::TransferWrite,
                src_stage: StageMask::TopOfPipe,
                dst_stage: StageMask::Transfer,
            },
        ),
        (ImageLayout::TransferDstOptimal, ImageLayout::ShaderReadOnlyOptimal) => Some(
            BarrierMasks {
                src_access: AccessMask::TransferWrite,
                dst_access: AccessMask::ShaderRead,
                src_stage: StageMask::Transfer,
                dst_stage: StageMask::FragmentShader,
            },
        ),
        _ => None,
    }
}

/// One recorded command of the mipmap-generation pass.
#[derive(Clone, Copy, Debug, PartialEq, Eq, Structural)]
pub enum MipCommand {
    /// Transition one mip level between layouts.
    Barrier { level: u32, old_layout: ImageLayout, new_layout: ImageLayout },
    /// Linear-filtered blit downsampling level `src_level` into `dst_level`.
    Blit {
        src_level: u32,
        src_width: u32,
        src_height: u32,
        dst_level: u32,
        dst_width: u32,
        dst_height: u32,
    },
}

/// The three commands that produce mip level `level` from level `level - 1`,
/// whose dimensions are `w x h`.
pub open spec fn level_commands(level: u32, w: u32, h: u32) -> Seq<MipCommand> {
    seq![
        MipCommand::Barrier {
            level: (level - 1) as u32,
            old_layout: ImageLayout::TransferDstOptimal,
            new_layout: ImageLayout::TransferSrcOptimal,
        },
        MipCommand::Blit {
            src_level: (level - 1) as u32,
            src_width: w,
            src_height: h,
            dst_level: level,
            dst_width: half_dim(w),
            dst_height: half_dim(h),
        },
        MipCommand::Barrier {
            level: (level - 1) as u32,
            old_layout: ImageLayout::TransferSrcOptimal,
            new_layout: ImageLayout::ShaderReadOnlyOptimal,
        },
    ]
}

/// Commands for levels `level .. mip_levels`, where `w x h` is the size of
/// level `level - 1`.
pub open spec fn blit_steps(level: u32, mip_levels: u32, w: u32, h: u32) -> Seq<MipCommand>
    decreases mip_levels - level,
{
    if level >= mip_levels {
        Seq::empty()
    } else {
        level_commands(level, w, h) + blit_steps((level + 1) as u32, mip_levels, half_dim(w), half_dim(h))
    }
}

/// The full mipmap-generation plan: per level a barrier of the previous
/// level to transfer-src, a downsampling blit, and a barrier of the previous
/// level to shader-read; then the last level moves from transfer-dst to
/// shader-read directly.
pub open spec fn spec_mipmap_commands(mip_levels: u32, width: u32, height: u32) -> Seq<MipCommand> {
    blit_steps(1, mip_levels, width, height)
        + seq![
        MipCommand::Barrier {
            level: (mip_levels - 1) as u32,
            old_layout: ImageLayout::TransferDstOptimal,
            new_layout: ImageLayout::ShaderReadOnlyOptimal,
        },
    ]
}

/// Ordered command plan that fills the mipmap chain of an image whose base
/// level has the given size and is in transfer-dst layout throughout.
pub fn mipmap_commands(mip_levels: u32, width: u32, height: u32) -> (ops: Vec<MipCommand>)
    requires
        mip_levels >= 1,
        width >= 1,
        height >= 1,
    ensures
        ops@ == spec_mipmap_commands(mip_levels, width, height),
{
    let mut ops: Vec<MipCommand> = Vec::new();
    let mut w: u32 = width;
    let mut h: u32 = height;
    let mut level: u32 = 1;
    while level < mip_levels
        invariant
            1 <= level <= mip_levels || (mip_levels <= 1 && level == 1),
            mip_levels >= 1,
            ops@ + blit_steps(level, mip_levels, w, h) == blit_steps(1, mip_levels, width, height),
        decreases mip_levels - level,
    {
        let ghost prev_ops = ops@;
        let ghost prev_w = w;
        let ghost prev_h = h;
        ops.push(
            MipCommand::Barrier {
                level: level - 1,
                old_layout: ImageLayout::TransferDstOptimal,
                new_layout: ImageLayout::TransferSrcOptimal,
            },
        );
        let next_w: u32 = if w > 1 {
            w / 2
        } else {
            1
        };
        let next_h: u32 = if h > 1 {
            h / 2
        } else {
            1
        };
        ops.push(
            MipCommand::Blit {
                src_level: level - 1,
                src_width: w,
                src_height: h,
                dst_level: level,
                dst_width: next_w,
                dst_height: next_h,
            },
        );
        ops.push(
            MipCommand::Barrier {
                level: level - 1,
                old_layout: ImageLayout::TransferSrcOptimal,
                new_layout: ImageLayout::ShaderReadOnlyOptimal,
            },
        );
        proof {
            assert(blit_steps(level, mip_levels, prev_w, prev_h) =~= level_commands(
                level,
                prev_w,
                prev_h,
            ) + blit_steps((level + 1) as u32, mip_levels, half_dim(prev_w), half_dim(prev_h)));
            assert(ops@ =~= prev_ops + level_commands(level, prev_w, prev_h));
            assert(ops@ + blit_steps((level + 1) as u32, mip_levels, next_w, next_h)
                =~= blit_steps(1, mip_levels, width, height));
        }
        w = next_w;
        h = next_h;
        level = level + 1;
    }
    proof {
        assert(blit_steps(level, mip_levels, w, h) =~= Seq::<MipCommand>::empty());
        assert(ops@ =~= blit_steps(1, mip_levels, width, height));
    }
    ops.push(
        MipCommand::Barrier {
            level: mip_levels - 1,
            old_layout: ImageLayout::TransferDstOptimal,
            new_layout: ImageLayout::ShaderReadOnlyOptimal,
        },
    );
    proof {
        assert(ops@ =~= spec_mipmap_commands(mip_levels, width, height));
    }
    ops
}

/// Formats the renderer distinguishes; anything else is carried as its raw
/// numeric identifier.
#[derive(Clone, Copy, Debug, PartialEq, Eq, Structural)]
pub enum ImageFormat {
    B8G8R8A8Srgb,
    B8G8R8A8Unorm,
    R8G8B8A8Srgb,
    D32Sfloat,
    D32SfloatS8Uint,
    Other(u32),
}

/// Tiling arrangements a format may be queried for.
#[derive(Clone, Copy, Debug, PartialEq, Eq, Structural)]
pub enum ImageTiling {
    Optimal,
    Linear,
}

/// The feature bits a device reports for one candidate format.
#[derive(Clone, Copy, Debug, PartialEq, Eq, Structural)]
pub struct FormatProperties {
    pub optimal_tiling_features: u64,
    pub linear_tiling_features: u64,
}

/// Whether a feature bitmask contains every bit of `required`.
pub open spec fn spec_features_contain(features: u64, required: u64) -> bool {
    features & required == required
}

/// The feature bits of `properties` that the given tiling arrangement uses.
pub open spec fn spec_tiling_features(properties: FormatProperties, tiling: ImageTiling) -> u64 {
    match tiling {
        ImageTiling::Optimal => properties.optimal_tiling_features,
        ImageTiling::Linear => properties.linear_tiling_features,
    }
}

/// Whether a feature bitmask contains every bit of `required`.
pub fn features_contain(features: u64, required: u64) -> (r: bool)
    ensures
        r == spec_features_contain(features, required),
{
    features & required == required
}

/// Index of the first candidate format whose features for the given tiling
/// contain all required bits; `None` exactly when no candidate qualifies.
pub fn supported_format(
    candidates: &Vec<FormatProperties>,
    tiling: ImageTiling,
    required: u64,
) -> (r: Option<usize>)
    ensures
        match r {
            Some(i) => {
                &&& i < candidates@.len()
                &&& spec_features_contain(spec_tiling_features(candidates@[i as int], tiling), required)
                &&& forall|j: int|
                    0 <= j < i ==> !spec_features_contain(
                        spec_tiling_features(candidates@[j], tiling),
                        required,
                    )
            },
            None => forall|j: int|
                0 <= j < candidates@.len() ==> !spec_features_contain(
                    spec_tiling_features(candidates@[j], tiling),
                    required,
                ),
        },
{
    let mut i: usize = 0;
    while i < candidates.len()
        invariant
            i <= candidates@.len(),
            forall|j: int|
                0 <= j < i ==> !spec_features_contain(
                    spec_tiling_features(candidates@[j], tiling),
                    required,
                ),
        decreases candidates@.len() - i,
    {
        let features: u64 = match tiling {
            ImageTiling::Optimal => candidates[i].optimal_tiling_features,
            ImageTiling::Linear => candidates[i].linear_tiling_features,
        };
        if features_contain(features, required) {
            return Some(i);
        }
        i = i + 1;
    }
    None
}

/// The candidate depth-attachment formats, in preference order.
pub fn depth_format_candidates() -> (r: Vec<ImageFormat>)
    ensures
        r@ == seq![ImageFormat::D32Sfloat, ImageFormat::D32SfloatS8Uint],
{
    let mut v: Vec<ImageFormat> = Vec::new();
    v.push(ImageFormat::D32Sfloat);
    v.push(ImageFormat::D32SfloatS8Uint);
    proof {
        assert(v@ =~= seq![ImageFormat::D32Sfloat, ImageFormat::D32SfloatS8Uint]);
    }
    v
}

/// Bytes of pixel data in the base level of a four-byte-per-pixel image.
pub fn image_byte_size(width: u32, height: u32) -> (size: u64)
    requires
        width as nat * height as nat * 4 <= u64::MAX,
    ensures
        size == width as nat * height as nat * 4,
{
    (width as u64) * (height as u64) * 4
}


/// The command at position `j` of the mipmap plan's per-level triples,
/// for a base image of `width x height`: position `3(l - 1)` transitions
/// level `l - 1` to transfer-src, `3(l - 1) + 1` blits level `l - 1` at its
/// exact chain size into level `l` at its exact chain size, and
/// `3(l - 1) + 2` moves level `l - 1` on to shader-read.
pub open spec fn spec_mip_command_at(width: u32, height: u32, j: int) -> MipCommand {
    let l = j / 3 + 1;
    let r = j % 3;
    if r == 0 {
        MipCommand::Barrier {
            level: (l - 1) as u32,
            old_layout: ImageLayout::TransferDstOptimal,
            new_layout: ImageLayout::TransferSrcOptimal,
        }
    } else if r == 1 {
        MipCommand::Blit {
            src_level: (l - 1) as u32,
            src_width: mip_dim(width, (l - 1) as nat),
            src_height: mip_dim(height, (l - 1) as nat),
            dst_level: l as u32,
            dst_width: mip_dim(width, l as nat),
            dst_height: mip_dim(height, l as nat),
        }
    } else {
        MipCommand::Barrier {
            level: (l - 1) as u32,
            old_layout: ImageLayout::TransferSrcOptimal,
            new_layout: ImageLayout::ShaderReadOnlyOptimal,
        }
    }
}

/// Each position of `blit_steps` holds the command the chain's geometry
/// fixes for it, counted from the base of the whole plan.
proof fn lemma_blit_steps_shape(level: u32, mip_levels: u32, base_w: u32, base_h: u32)
    requires
        1 <= level <= mip_levels,
    ensures
        ({
            let steps = blit_steps(
                level,
                mip_levels,
                mip_dim(base_w, (level - 1) as nat),
                mip_dim(base_h, (level - 1) as nat),
            );
            &&& steps.len() == 3 * (mip_levels - level)
            &&& forall|j: int|
                0 <= j < steps.len() ==> #[trigger] steps[j] == spec_mip_command_at(
                    base_w,
                    base_h,
                    j + 3 * (level - 1),
                )
        }),
    decreases mip_levels - level,
{
    let w = mip_dim(base_w, (level - 1) as nat);
    let h = mip_dim(base_h, (level - 1) as nat);
    let steps = blit_steps(level, mip_levels, w, h);
    if level < mip_levels {
        assert(mip_dim(base_w, level as nat) == half_dim(w));
        assert(mip_dim(base_h, level as nat) == half_dim(h));
        lemma_blit_steps_shape((level + 1) as u32, mip_levels, base_w, base_h);
        let rest = blit_steps((level + 1) as u32, mip_levels, half_dim(w), half_dim(h));
        assert(steps == level_commands(level, w, h) + rest);
        assert forall|j: int|
            0 <= j < steps.len() implies #[trigger] steps[j] == spec_mip_command_at(
            base_w,
            base_h,
            j + 3 * (level - 1),
        ) by {
            if j < 3 {
                assert(steps[j] == level_commands(level, w, h)[j]);
                lemma_fundamental_div_mod_converse(
                    j + 3 * (level - 1),
                    3,
                    level as int - 1,
                    j,
                );
            } else {
                assert(steps[j] == rest[j - 3]);
                assert(rest[j - 3] == spec_mip_command_at(base_w, base_h, j - 3 + 3 * level));
                assert(j - 3 + 3 * level == j + 3 * (level - 1));
            }
        }
    }
}

/// The shape of the whole mipmap plan: three commands per generated level,
/// each fixed by its position and the chain's geometry, and one final
/// barrier that moves the last level to shader-read.
pub proof fn lemma_mipmap_commands_shape(mip_levels: u32, width: u32, height: u32)
    requires
        mip_levels >= 1,
    ensures
        ({
            let ops = spec_mipmap_commands(mip_levels, width, height);
            &&& ops.len() == 3 * (mip_levels - 1) + 1
            &&& forall|j: int|
                0 <= j < 3 * (mip_levels - 1) ==> #[trigger] ops[j] == spec_mip_command_at(
                    width,
                    height,
                    j,
                )
            &&& ops[3 * (mip_levels - 1)] == (MipCommand::Barrier {
                level: (mip_levels - 1) as u32,
                old_layout: ImageLayout::TransferDstOptimal,
                new_layout: ImageLayout::ShaderReadOnlyOptimal,
            })
        }),
{
    assert(mip_dim(width, 0) == width);
    assert(mip_dim(height, 0) == height);
    lemma_blit_steps_shape(1, mip_levels, width, height);
    let ops = spec_mipmap_commands(mip_levels, width, height);
    let steps = blit_steps(1, mip_levels, width, height);
    assert(ops.len() == steps.len() + 1);
    assert forall|j: int|
        0 <= j < 3 * (mip_levels - 1) implies #[trigger] ops[j] == spec_mip_command_at(
        width,
        height,
        j,
    ) by {
        assert(ops[j] == steps[j]);
        assert(steps[j] == spec_mip_command_at(width, height, j + 3 * (1 - 1)));
        assert(j + 3 * (1 - 1) == j);
    }
}

} // verus!
