use cpyte_engine::command_executor::{one_shot_steps, OneShotStep};
use cpyte_engine::image::{ImageFormat, ImageLayout};
use cpyte_engine::lifecycle::{setup_plan, teardown_plan, DestroyOp, SetupOp};
use cpyte_engine::pipeline::{
    descriptor_layout_bindings, descriptor_pool_sizes, pipeline_config, push_constant_range,
    DescriptorKind, DynamicState, ShaderStage,
};
use cpyte_engine::render_pass::{render_pass_attachments, LoadOp, StoreOp};
use cpyte_engine::scene::{Entity, SceneGraph};
use cpyte_engine::vertex::{
    vertex_attribute_descriptions, vertex_binding_description, AttributeFormat, VertexInputRate,
};

#[test]
fn one_shot_execution_is_fully_ordered() {
    let steps = one_shot_steps();
    assert_eq!(
        steps,
        vec![
            OneShotStep::AllocateCommandBuffer,
            OneShotStep::BeginCommandBuffer,
            OneShotStep::RecordPayload,
            OneShotStep::EndCommandBuffer,
            OneShotStep::SubmitWithFence,
            OneShotStep::WaitQueueIdle,
            OneShotStep::DestroyFence,
            OneShotStep::FreeCommandBuffer,
        ]
    );
}

#[test]
fn setup_plan_creates_every_resource_per_entity() {
    let mut scene = SceneGraph::new();
    scene.insert("room", Entity::new(8, 12, 4, 4));
    let ops = setup_plan(&scene, 2, 2, false);
    // 2 uniform buffers, pool, 2 texture steps, sampler, vertex, index,
    // descriptor set, pipeline, depth, 2 framebuffers, 2 command buffers,
    // and 2 of each per-slot object.
    assert_eq!(ops[0], SetupOp::CreateUniformBuffer { image: 0 });
    assert_eq!(ops[1], SetupOp::CreateUniformBuffer { image: 1 });
    assert_eq!(ops[2], SetupOp::CreateDescriptorPool { max_sets: 1 });
    assert_eq!(
        ops[3],
        SetupOp::CreateTextureImage { entity: 0, width: 4, height: 4, mip_levels: 3 }
    );
    assert_eq!(ops[4], SetupOp::FillTextureImage { entity: 0 });
    assert_eq!(ops[5], SetupOp::CreateSampler { entity: 0, mip_levels: 3 });
    assert_eq!(ops[6], SetupOp::CreateVertexBuffer { entity: 0, vertex_count: 8 });
    assert_eq!(ops[7], SetupOp::CreateIndexBuffer { entity: 0, index_count: 12 });
    assert_eq!(ops[8], SetupOp::CreateDescriptorSet { entity: 0 });
    assert_eq!(ops[9], SetupOp::CreatePipeline);
    assert_eq!(ops[10], SetupOp::CreateDepthImage);
    assert_eq!(ops[11], SetupOp::CreateFramebuffer { image: 0 });
    assert_eq!(ops[12], SetupOp::CreateFramebuffer { image: 1 });
    assert_eq!(ops[13], SetupOp::CreateCommandBuffer { image: 0 });
    assert_eq!(ops[14], SetupOp::CreateCommandBuffer { image: 1 });
    assert_eq!(ops[15], SetupOp::CreateImageAvailableSemaphore { slot: 0 });
    assert_eq!(ops[16], SetupOp::CreateImageAvailableSemaphore { slot: 1 });
    assert_eq!(ops[17], SetupOp::CreateRenderDoneSemaphore { slot: 0 });
    assert_eq!(ops[18], SetupOp::CreateRenderDoneSemaphore { slot: 1 });
    assert_eq!(ops[19], SetupOp::CreateFrameFence { slot: 0, signaled: true });
    assert_eq!(ops[20], SetupOp::CreateFrameFence { slot: 1, signaled: true });
    assert_eq!(ops[21], SetupOp::CreateFrameFence { slot: 0, signaled: false });
    assert_eq!(ops[22], SetupOp::CreateFrameFence { slot: 1, signaled: false });
    assert_eq!(ops.len(), 23);
    // With multisampling on, the offscreen color target appears after the
    // pipeline.
    let msaa_ops = setup_plan(&scene, 2, 2, true);
    assert_eq!(msaa_ops.len(), 24);
    assert_eq!(msaa_ops[10], SetupOp::CreateColorImage);
}

#[test]
fn teardown_waits_for_the_device_then_destroys_in_reverse_dependency_order() {
    let ops = teardown_plan(2, 3, 2, false);
    assert_eq!(ops[0], DestroyOp::DeviceWaitIdle);
    assert_eq!(ops[1], DestroyOp::DestroySampler { entity: 0 });
    assert_eq!(ops[2], DestroyOp::DestroySampler { entity: 1 });
    assert_eq!(ops[3], DestroyOp::DestroyTextureImage { entity: 0 });
    assert_eq!(ops[4], DestroyOp::DestroyTextureImage { entity: 1 });
    assert_eq!(ops[5], DestroyOp::DestroyDepthImage);
    assert_eq!(ops[6], DestroyOp::DestroyDescriptorSet { entity: 0 });
    assert_eq!(ops[7], DestroyOp::DestroyDescriptorSet { entity: 1 });
    assert_eq!(ops[8], DestroyOp::DestroyIndexBuffer { entity: 0 });
    assert_eq!(ops[9], DestroyOp::DestroyIndexBuffer { entity: 1 });
    assert_eq!(ops[10], DestroyOp::DestroyVertexBuffer { entity: 0 });
    assert_eq!(ops[11], DestroyOp::DestroyVertexBuffer { entity: 1 });
    assert_eq!(ops[12], DestroyOp::DestroyDescriptorPool);
    assert_eq!(ops[13], DestroyOp::DestroyUniformBuffer { image: 0 });
    assert_eq!(ops[14], DestroyOp::DestroyUniformBuffer { image: 1 });
    assert_eq!(ops[15], DestroyOp::DestroyUniformBuffer { image: 2 });
    assert_eq!(ops[16], DestroyOp::DestroyFrameFence { slot: 0, signaled: false });
    assert_eq!(ops[17], DestroyOp::DestroyFrameFence { slot: 1, signaled: false });
    assert_eq!(ops[18], DestroyOp::DestroyFrameFence { slot: 0, signaled: true });
    assert_eq!(ops[19], DestroyOp::DestroyFrameFence { slot: 1, signaled: true });
    assert_eq!(ops[20], DestroyOp::DestroyRenderDoneSemaphore { slot: 0 });
    assert_eq!(ops[21], DestroyOp::DestroyRenderDoneSemaphore { slot: 1 });
    assert_eq!(ops[22], DestroyOp::DestroyImageAvailableSemaphore { slot: 0 });
    assert_eq!(ops[23], DestroyOp::DestroyImageAvailableSemaphore { slot: 1 });
    assert_eq!(ops[24], DestroyOp::DestroyCommandPool);
    assert_eq!(ops[25], DestroyOp::DestroyFramebuffer { image: 0 });
    assert_eq!(ops[26], DestroyOp::DestroyFramebuffer { image: 1 });
    assert_eq!(ops[27], DestroyOp::DestroyFramebuffer { image: 2 });
    assert_eq!(ops[28], DestroyOp::DestroyPipeline);
    assert_eq!(ops[29], DestroyOp::DestroyRenderPass);
    assert_eq!(ops[30], DestroyOp::DestroySwapchain);
    assert_eq!(ops[31], DestroyOp::DestroyDevice);
    assert_eq!(ops[32], DestroyOp::DestroySurface);
    assert_eq!(ops[33], DestroyOp::DestroyDebugMessenger);
    assert_eq!(ops[34], DestroyOp::DestroyInstance);
    assert_eq!(ops.len(), 35);
    let msaa_ops = teardown_plan(2, 3, 2, true);
    assert_eq!(msaa_ops[24], DestroyOp::DestroyColorImage);
    assert_eq!(msaa_ops.len(), 36);
}

#[test]
fn descriptor_layout_has_uniform_then_sampler() {
    let bindings = descriptor_layout_bindings();
    assert_eq!(bindings.len(), 2);
    assert_eq!(bindings[0].binding, 0);
    assert_eq!(bindings[0].kind, DescriptorKind::UniformBuffer);
    assert_eq!(bindings[0].stage, ShaderStage::Vertex);
    assert_eq!(bindings[0].count, 1);
    assert_eq!(bindings[1].binding, 1);
    assert_eq!(bindings[1].kind, DescriptorKind::CombinedImageSampler);
    assert_eq!(bindings[1].stage, ShaderStage::Fragment);
    assert_eq!(bindings[1].count, 1);
}

#[test]
fn descriptor_pool_holds_one_of_each_per_entity() {
    let (sizes, max_sets) = descriptor_pool_sizes(5);
    assert_eq!(max_sets, 5);
    assert_eq!(sizes.len(), 2);
    assert_eq!(sizes[0].kind, DescriptorKind::UniformBuffer);
    assert_eq!(sizes[0].count, 5);
    assert_eq!(sizes[1].kind, DescriptorKind::CombinedImageSampler);
    assert_eq!(sizes[1].count, 5);
}

#[test]
fn model_matrix_push_constant_is_sixty_four_vertex_bytes() {
    let range = push_constant_range();
    assert_eq!(range.stage, ShaderStage::Vertex);
    assert_eq!(range.offset, 0);
    assert_eq!(range.size, 64);
}

#[test]
fn pipeline_config_enables_sample_shading_only_with_msaa() {
    let single = pipeline_config(1);
    assert!(!single.sample_shading);
    assert_eq!(single.dynamic_states, vec![DynamicState::Viewport, DynamicState::Scissor]);
    assert_eq!(single.subpass, 0);
    let multi = pipeline_config(4);
    assert!(multi.sample_shading);
}

#[test]
fn render_pass_without_msaa_presents_its_color_attachment() {
    let attachments = render_pass_attachments(
        ImageFormat::B8G8R8A8Srgb,
        ImageFormat::D32Sfloat,
        ImageFormat::B8G8R8A8Srgb,
        1,
    );
    assert_eq!(attachments.len(), 2);
    assert_eq!(attachments[0].format, ImageFormat::B8G8R8A8Srgb);
    assert_eq!(attachments[0].samples, 1);
    assert_eq!(attachments[0].load_op, LoadOp::Clear);
    assert_eq!(attachments[0].store_op, StoreOp::Store);
    assert_eq!(attachments[0].final_layout, ImageLayout::PresentSrc);
    assert_eq!(attachments[1].format, ImageFormat::D32Sfloat);
    assert_eq!(attachments[1].store_op, StoreOp::DontCare);
    assert_eq!(attachments[1].final_layout, ImageLayout::DepthStencilAttachmentOptimal);
}

#[test]
fn render_pass_with_msaa_adds_a_resolve_target() {
    let attachments = render_pass_attachments(
        ImageFormat::B8G8R8A8Srgb,
        ImageFormat::D32Sfloat,
        ImageFormat::B8G8R8A8Unorm,
        4,
    );
    assert_eq!(attachments.len(), 3);
    assert_eq!(attachments[0].samples, 4);
    assert_eq!(attachments[0].final_layout, ImageLayout::ColorAttachmentOptimal);
    assert_eq!(attachments[2].format, ImageFormat::B8G8R8A8Unorm);
    assert_eq!(attachments[2].samples, 1);
    assert_eq!(attachments[2].load_op, LoadOp::DontCare);
    assert_eq!(attachments[2].final_layout, ImageLayout::PresentSrc);
}

#[test]
fn vertex_layout_is_one_packed_binding() {
    let binding = vertex_binding_description();
    assert_eq!(binding.binding, 0);
    assert_eq!(binding.stride, 32);
    assert_eq!(binding.input_rate, VertexInputRate::Vertex);
    let attributes = vertex_attribute_descriptions();
    assert_eq!(attributes.len(), 3);
    assert_eq!(attributes[0].location, 0);
    assert_eq!(attributes[0].format, AttributeFormat::R32G32B32Sfloat);
    assert_eq!(attributes[0].offset, 0);
    assert_eq!(attributes[1].location, 1);
    assert_eq!(attributes[1].format, AttributeFormat::R32G32B32Sfloat);
    assert_eq!(attributes[1].offset, 12);
    assert_eq!(attributes[2].location, 2);
    assert_eq!(attributes[2].format, AttributeFormat::R32G32Sfloat);
    assert_eq!(attributes[2].offset, 24);
}
