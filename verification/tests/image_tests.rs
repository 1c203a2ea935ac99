use cpyte_engine::image::{
    depth_format_candidates, features_contain, image_byte_size, mip_level_count, mipmap_commands,
    supported_format, transition_masks, AccessMask, BarrierMasks, FormatProperties, ImageFormat,
    ImageLayout, ImageTiling, MipCommand, StageMask,
};

#[test]
fn mip_levels_of_one_by_one_is_one() {
    assert_eq!(mip_level_count(1, 1), 1);
}

#[test]
fn mip_levels_of_256_square_is_nine() {
    assert_eq!(mip_level_count(256, 256), 9);
}

#[test]
fn mip_levels_of_300_by_200_is_nine() {
    assert_eq!(mip_level_count(300, 200), 9);
}

#[test]
fn mip_levels_follow_the_larger_side() {
    assert_eq!(mip_level_count(1024, 1), 11);
    assert_eq!(mip_level_count(1, 1024), 11);
    assert_eq!(mip_level_count(2, 2), 2);
    assert_eq!(mip_level_count(3, 3), 2);
    assert_eq!(mip_level_count(4, 4), 3);
}

#[test]
fn transition_to_transfer_dst_masks() {
    let masks = transition_masks(ImageLayout::Undefined, ImageLayout::TransferDstOptimal);
    assert_eq!(
        masks,
        Some(BarrierMasks {
            src_access: AccessMask::Empty,
            dst_access: AccessMask::TransferWrite,
            src_stage: StageMask::TopOfPipe,
            dst_stage: StageMask::Transfer,
        })
    );
}

#[test]
fn transition_to_shader_read_masks() {
    let masks = transition_masks(
        ImageLayout::TransferDstOptimal,
        ImageLayout::ShaderReadOnlyOptimal,
    );
    assert_eq!(
        masks,
        Some(BarrierMasks {
            src_access: AccessMask::TransferWrite,
            dst_access: AccessMask::ShaderRead,
            src_stage: StageMask::Transfer,
            dst_stage: StageMask::FragmentShader,
        })
    );
}

#[test]
fn unsupported_transitions_are_rejected() {
    assert_eq!(
        transition_masks(ImageLayout::Undefined, ImageLayout::ShaderReadOnlyOptimal),
        None
    );
    assert_eq!(
        transition_masks(
            ImageLayout::ShaderReadOnlyOptimal,
            ImageLayout::TransferDstOptimal
        ),
        None
    );
}

#[test]
fn mipmap_plan_for_four_by_two() {
    // 4x2 has three levels: 4x2, 2x1, 1x1.
    let ops = mipmap_commands(3, 4, 2);
    assert_eq!(ops.len(), 7);
    assert_eq!(
        ops[0],
        MipCommand::Barrier {
            level: 0,
            old_layout: ImageLayout::TransferDstOptimal,
            new_layout: ImageLayout::TransferSrcOptimal,
        }
    );
    assert_eq!(
        ops[1],
        MipCommand::Blit {
            src_level: 0,
            src_width: 4,
            src_height: 2,
            dst_level: 1,
            dst_width: 2,
            dst_height: 1,
        }
    );
    assert_eq!(
        ops[2],
        MipCommand::Barrier {
            level: 0,
            old_layout: ImageLayout::TransferSrcOptimal,
            new_layout: ImageLayout::ShaderReadOnlyOptimal,
        }
    );
    assert_eq!(
        ops[3],
        MipCommand::Barrier {
            level: 1,
            old_layout: ImageLayout::TransferDstOptimal,
            new_layout: ImageLayout::TransferSrcOptimal,
        }
    );
    assert_eq!(
        ops[4],
        MipCommand::Blit {
            src_level: 1,
            src_width: 2,
            src_height: 1,
            dst_level: 2,
            dst_width: 1,
            dst_height: 1,
        }
    );
    assert_eq!(
        ops[5],
        MipCommand::Barrier {
            level: 1,
            old_layout: ImageLayout::TransferSrcOptimal,
            new_layout: ImageLayout::ShaderReadOnlyOptimal,
        }
    );
    assert_eq!(
        ops[6],
        MipCommand::Barrier {
            level: 2,
            old_layout: ImageLayout::TransferDstOptimal,
            new_layout: ImageLayout::ShaderReadOnlyOptimal,
        }
    );
}

#[test]
fn mipmap_plan_for_single_level_is_one_barrier() {
    let ops = mipmap_commands(1, 1, 1);
    assert_eq!(ops.len(), 1);
    assert_eq!(
        ops[0],
        MipCommand::Barrier {
            level: 0,
            old_layout: ImageLayout::TransferDstOptimal,
            new_layout: ImageLayout::ShaderReadOnlyOptimal,
        }
    );
}

#[test]
fn feature_containment_checks_all_bits() {
    assert!(features_contain(0b1110, 0b0110));
    assert!(!features_contain(0b1110, 0b0001));
    assert!(features_contain(0, 0));
}

#[test]
fn first_supported_format_wins() {
    let candidates = vec![
        FormatProperties { optimal_tiling_features: 0b01, linear_tiling_features: 0b11 },
        FormatProperties { optimal_tiling_features: 0b10, linear_tiling_features: 0b00 },
        FormatProperties { optimal_tiling_features: 0b10, linear_tiling_features: 0b00 },
    ];
    assert_eq!(supported_format(&candidates, ImageTiling::Optimal, 0b10), Some(1));
    assert_eq!(supported_format(&candidates, ImageTiling::Linear, 0b11), Some(0));
    assert_eq!(supported_format(&candidates, ImageTiling::Optimal, 0b100), None);
}

#[test]
fn depth_candidates_prefer_pure_depth() {
    let candidates = depth_format_candidates();
    assert_eq!(candidates.len(), 2);
    assert_eq!(candidates[0], ImageFormat::D32Sfloat);
    assert_eq!(candidates[1], ImageFormat::D32SfloatS8Uint);
}

#[test]
fn image_bytes_are_four_per_pixel() {
    assert_eq!(image_byte_size(2, 3), 24);
    assert_eq!(image_byte_size(1, 1), 4);
    assert_eq!(image_byte_size(1920, 1080), 1920 * 1080 * 4);
}
