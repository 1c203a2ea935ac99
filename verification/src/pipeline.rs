//! Pipeline-facing configuration decided by the renderer: the descriptor-set
//! layout that every entity's resources bind to, the sizes of the pool those
//! sets come from, the push-constant range of the model matrix, and the few
//! pipeline switches that depend on the multisample count.

use vstd::prelude::*;
use crate::vertex::FLOAT_BYTES;

verus! {

/// Shader stages a binding or push constant is visible to.
#[derive(Clone, Copy, Debug, PartialEq, Eq, Structural)]
pub enum ShaderStage {
    Vertex,
    Fragment,
}

/// Descriptor kinds the renderer binds.
#[derive(Clone, Copy, Debug, PartialEq, Eq, Structural)]
pub enum DescriptorKind {
    UniformBuffer,
    CombinedImageSampler,
}

/// One binding of the descriptor-set layout.
#[derive(Clone, Copy, Debug, PartialEq, Eq, Structural)]
pub struct DescriptorBinding {
    pub binding: u32,
    pub kind: DescriptorKind,
    pub count: u32,
    pub stage: ShaderStage,
}

/// The two bindings of every descriptor set: the uniform buffer with the
/// view and projection matrices at binding 0 for the vertex stage, and the
/// combined image and sampler at binding 1 for the fragment stage.
pub fn descriptor_layout_bindings() -> (r: Vec<DescriptorBinding>)
    ensures
        r@ == seq![
            DescriptorBinding {
                binding: 0,
                kind: DescriptorKind::UniformBuffer,
                count: 1,
                stage: ShaderStage::Vertex,
            },
            DescriptorBinding {
                binding: 1,
                kind: DescriptorKind::CombinedImageSampler,
                count: 1,
                stage: ShaderStage::Fragment,
            },
        ],
{
    let mut v: Vec<DescriptorBinding> = Vec::new();
    v.push(
        DescriptorBinding {
            binding: 0,
            kind: DescriptorKind::UniformBuffer,
            count: 1,
            stage: ShaderStage::Vertex,
        },
    );
    v.push(
        DescriptorBinding {
            binding: 1,
            kind: DescriptorKind::CombinedImageSampler,
            count: 1,
            stage: ShaderStage::Fragment,
        },
    );
    proof {
        assert(v@ =~= seq![
            DescriptorBinding {
                binding: 0,
                kind: DescriptorKind::UniformBuffer,
                count: 1,
                stage: ShaderStage::Vertex,
            },
            DescriptorBinding {
                binding: 1,
                kind: DescriptorKind::CombinedImageSampler,
                count: 1,
                stage: ShaderStage::Fragment,
            },
        ]);
    }
    v
}

/// One pool size: how many descriptors of one kind the pool can hand out.
#[derive(Clone, Copy, Debug, PartialEq, Eq, Structural)]
pub struct PoolSize {
    pub kind: DescriptorKind,
    pub count: u32,
}

/// The descriptor pool's capacities: one uniform buffer and one combined
/// image sampler per entity, and one set per entity.
pub fn descriptor_pool_sizes(entity_count: u32) -> (r: (Vec<PoolSize>, u32))
    ensures
        r.0@ == seq![
            PoolSize { kind: DescriptorKind::UniformBuffer, count: entity_count },
            PoolSize { kind: DescriptorKind::CombinedImageSampler, count: entity_count },
        ],
        r.1 == entity_count,
{
    let mut sizes: Vec<PoolSize> = Vec::new();
    sizes.push(PoolSize { kind: DescriptorKind::UniformBuffer, count: entity_count });
    sizes.push(PoolSize { kind: DescriptorKind::CombinedImageSampler, count: entity_count });
    proof {
        assert(sizes@ =~= seq![
            PoolSize { kind: DescriptorKind::UniformBuffer, count: entity_count },
            PoolSize { kind: DescriptorKind::CombinedImageSampler, count: entity_count },
        ]);
    }
    (sizes, entity_count)
}

/// A push-constant range: which stage sees it and which bytes it covers.
#[derive(Clone, Copy, Debug, PartialEq, Eq, Structural)]
pub struct PushConstantRange {
    pub stage: ShaderStage,
    pub offset: u32,
    pub size: u32,
}

/// Rows and columns of the model matrix.
pub const MATRIX_DIMENSION: u32 = 4;

/// The single push-constant range: the sixteen floats of the model matrix,
/// at offset zero, visible to the vertex stage.
pub fn push_constant_range() -> (r: PushConstantRange)
    ensures
        r.stage == ShaderStage::Vertex,
        r.offset == 0,
        r.size == (MATRIX_DIMENSION * MATRIX_DIMENSION * FLOAT_BYTES) as u32,
{
    PushConstantRange {
        stage: ShaderStage::Vertex,
        offset: 0,
        size: MATRIX_DIMENSION * MATRIX_DIMENSION * FLOAT_BYTES,
    }
}

/// Pipeline state that is changed per frame rather than baked in.
#[derive(Clone, Copy, Debug, PartialEq, Eq, Structural)]
pub enum DynamicState {
    Viewport,
    Scissor,
}

/// The pipeline switches the renderer decides: whether per-sample shading is
/// on, which states stay dynamic, and the subpass drawn into.
pub struct PipelineConfig {
    pub sample_shading: bool,
    pub dynamic_states: Vec<DynamicState>,
    pub push_constant: PushConstantRange,
    pub subpass: u32,
}

/// The pipeline configuration for a given multisample count: sample shading
/// exactly when multisampling is on, viewport and scissor dynamic, the model
/// matrix as the only push constant, subpass zero.
pub fn pipeline_config(sample_count: u32) -> (config: PipelineConfig)
    ensures
        config.sample_shading == (sample_count != 1),
        config.dynamic_states@ == seq![DynamicState::Viewport, DynamicState::Scissor],
        config.push_constant.stage == ShaderStage::Vertex,
        config.push_constant.offset == 0,
        config.push_constant.size == (MATRIX_DIMENSION * MATRIX_DIMENSION * FLOAT_BYTES) as u32,
        config.subpass == 0,
{
    let mut dynamic_states: Vec<DynamicState> = Vec::new();
    dynamic_states.push(DynamicState::Viewport);
    dynamic_states.push(DynamicState::Scissor);
    proof {
        assert(dynamic_states@ =~= seq![DynamicState::Viewport, DynamicState::Scissor]);
    }
    PipelineConfig {
        sample_shading: sample_count != 1,
        dynamic_states,
        push_constant: push_constant_range(),
        subpass: 0,
    }
}

} // verus!
