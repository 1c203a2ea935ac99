//! Resource lifecycle plans: the order in which the renderer creates its
//! GPU resources at setup, and the reverse-dependency order in which it
//! destroys them at shutdown, after a full device-idle wait.
//!
//! Every owned resource appears in both plans exactly once. Per-entity
//! resources are keyed by the entity's position in the scene; per-image and
//! per-slot resources by their index.

use vstd::prelude::*;
use crate::image::{mip_level_count, spec_mip_level_count};
use crate::scene::{Entity, SceneGraph};

verus! {

/// Mip levels of an entity's texture, from its size.
pub open spec fn spec_mips_of(e: Entity) -> u32 {
    spec_mip_level_count(e.texture_width as nat, e.texture_height as nat) as u32
}

/// One resource creation of the setup phase.
#[derive(Clone, Copy, Debug, PartialEq, Eq, Structural)]
pub enum SetupOp {
    CreateUniformBuffer { image: usize },
    CreateDescriptorPool { max_sets: u32 },
    CreateTextureImage { entity: usize, width: u32, height: u32, mip_levels: u32 },
    FillTextureImage { entity: usize },
    CreateSampler { entity: usize, mip_levels: u32 },
    CreateVertexBuffer { entity: usize, vertex_count: u32 },
    CreateIndexBuffer { entity: usize, index_count: u32 },
    CreateDescriptorSet { entity: usize },
    CreatePipeline,
    CreateColorImage,
    CreateDepthImage,
    CreateFramebuffer { image: usize },
    CreateCommandBuffer { image: usize },
    CreateImageAvailableSemaphore { slot: usize },
    CreateRenderDoneSemaphore { slot: usize },
    CreateFrameFence { slot: usize, signaled: bool },
}

/// Per entity, the creation of its texture image at the mip depth its size
/// fixes, followed at once by the staged upload that fills it.
pub open spec fn texture_setup_ops(scene: Seq<(Seq<char>, Entity)>, k: int) -> Seq<SetupOp>
    decreases scene.len() - k,
{
    if k < 0 || k >= scene.len() {
        Seq::empty()
    } else {
        seq![
            SetupOp::CreateTextureImage {
                entity: k as usize,
                width: scene[k].1.texture_width,
                height: scene[k].1.texture_height,
                mip_levels: spec_mips_of(scene[k].1),
            },
            SetupOp::FillTextureImage { entity: k as usize },
        ] + texture_setup_ops(scene, k + 1)
    }
}

/// The whole setup plan, in creation order: per-image uniform buffers, the
/// descriptor pool sized to the scene, per-entity texture images (filled as
/// created), samplers, vertex and index buffers and descriptor sets, the
/// pipeline, the offscreen color target when multisampling is on, the depth
/// image, per-image framebuffers and command buffers, and per-slot
/// semaphores and fences — the frame-done fence born signaled, its spare
/// unsignaled.
pub open spec fn spec_setup_ops(
    scene: Seq<(Seq<char>, Entity)>,
    image_count: usize,
    flight_count: usize,
    msaa_enabled: bool,
) -> Seq<SetupOp> {
    let n = scene.len();
    Seq::new(image_count as nat, |i: int| SetupOp::CreateUniformBuffer { image: i as usize })
        + seq![SetupOp::CreateDescriptorPool { max_sets: n as u32 }] + texture_setup_ops(scene, 0)
        + Seq::new(
        n,
        |k: int| SetupOp::CreateSampler { entity: k as usize, mip_levels: spec_mips_of(scene[k].1) },
    ) + Seq::new(
        n,
        |k: int|
            SetupOp::CreateVertexBuffer {
                entity: k as usize,
                vertex_count: scene[k].1.vertex_count,
            },
    ) + Seq::new(
        n,
        |k: int| SetupOp::CreateIndexBuffer { entity: k as usize, index_count: scene[k].1.index_count },
    ) + Seq::new(n, |k: int| SetupOp::CreateDescriptorSet { entity: k as usize }) + seq![
        SetupOp::CreatePipeline,
    ] + (if msaa_enabled {
        seq![SetupOp::CreateColorImage]
    } else {
        Seq::empty()
    }) + seq![SetupOp::CreateDepthImage] + Seq::new(
        image_count as nat,
        |i: int| SetupOp::CreateFramebuffer { image: i as usize },
    ) + Seq::new(image_count as nat, |i: int| SetupOp::CreateCommandBuffer { image: i as usize })
        + Seq::new(
        flight_count as nat,
        |s: int| SetupOp::CreateImageAvailableSemaphore { slot: s as usize },
    ) + Seq::new(
        flight_count as nat,
        |s: int| SetupOp::CreateRenderDoneSemaphore { slot: s as usize },
    ) + Seq::new(
        flight_count as nat,
        |s: int| SetupOp::CreateFrameFence { slot: s as usize, signaled: true },
    ) + Seq::new(
        flight_count as nat,
        |s: int| SetupOp::CreateFrameFence { slot: s as usize, signaled: false },
    )
}

/// The ordered setup plan for a scene.
pub fn setup_plan(
    scene: &SceneGraph,
    image_count: usize,
    flight_count: usize,
    msaa_enabled: bool,
) -> (ops: Vec<SetupOp>)
    requires
        scene.wf(),
        scene@.len() <= u32::MAX,
    ensures
        ops@ == spec_setup_ops(scene@, image_count, flight_count, msaa_enabled),
{
    let mut ops: Vec<SetupOp> = Vec::new();
    let mut i: usize = 0;
    while i < image_count
        invariant
            i <= image_count,
            ops@ == Seq::new(
                i as nat,
                |j: int| SetupOp::CreateUniformBuffer { image: j as usize },
            ),
        decreases image_count - i,
    {
        ops.push(SetupOp::CreateUniformBuffer { image: i });
        proof {
            assert(ops@ =~= Seq::new(
                (i + 1) as nat,
                |j: int| SetupOp::CreateUniformBuffer { image: j as usize },
            ));
        }
        i = i + 1;
    }
    ops.push(SetupOp::CreateDescriptorPool { max_sets: scene.len() as u32 });
    let ghost after_pool = ops@;
    let mut k: usize = 0;
    while k < scene.len()
        invariant
            k <= scene@.len(),
            scene.wf(),
            ops@ + texture_setup_ops(scene@, k as int) == after_pool + texture_setup_ops(
                scene@,
                0,
            ),
        decreases scene@.len() - k,
    {
        let e = scene.entity_at(k);
        let mips = mip_level_count(e.texture_width, e.texture_height);
        ops.push(
            SetupOp::CreateTextureImage {
                entity: k,
                width: e.texture_width,
                height: e.texture_height,
                mip_levels: mips,
            },
        );
        ops.push(SetupOp::FillTextureImage { entity: k });
        proof {
            assert(texture_setup_ops(scene@, k as int) =~= seq![
                SetupOp::CreateTextureImage {
                    entity: k as usize,
                    width: scene@[k as int].1.texture_width,
                    height: scene@[k as int].1.texture_height,
                    mip_levels: spec_mips_of(scene@[k as int].1),
                },
                SetupOp::FillTextureImage { entity: k as usize },
            ] + texture_setup_ops(scene@, k as int + 1));
            assert(mips == spec_mips_of(scene@[k as int].1));
            assert(ops@ + texture_setup_ops(scene@, k as int + 1) =~= after_pool
                + texture_setup_ops(scene@, 0));
        }
        k = k + 1;
    }
    proof {
        assert(texture_setup_ops(scene@, scene@.len() as int) =~= Seq::<SetupOp>::empty());
        assert(ops@ =~= after_pool + texture_setup_ops(scene@, 0));
    }
    let ghost after_textures = ops@;
    let mut k: usize = 0;
    while k < scene.len()
        invariant
            k <= scene@.len(),
            scene.wf(),
            ops@ == after_textures + Seq::new(
                k as nat,
                |j: int|
                    SetupOp::CreateSampler {
                        entity: j as usize,
                        mip_levels: spec_mips_of(scene@[j].1),
                    },
            ),
        decreases scene@.len() - k,
    {
        let e = scene.entity_at(k);
        let mips = mip_level_count(e.texture_width, e.texture_height);
        ops.push(SetupOp::CreateSampler { entity: k, mip_levels: mips });
        proof {
            assert(ops@ =~= after_textures + Seq::new(
                (k + 1) as nat,
                |j: int|
                    SetupOp::CreateSampler {
                        entity: j as usize,
                        mip_levels: spec_mips_of(scene@[j].1),
                    },
            ));
        }
        k = k + 1;
    }
    let ghost after_samplers = ops@;
    let mut k: usize = 0;
    while k < scene.len()
        invariant
            k <= scene@.len(),
            scene.wf(),
            ops@ == after_samplers + Seq::new(
                k as nat,
                |j: int|
                    SetupOp::CreateVertexBuffer {
                        entity: j as usize,
                        vertex_count: scene@[j].1.vertex_count,
                    },
            ),
        decreases scene@.len() - k,
    {
        let e = scene.entity_at(k);
        ops.push(SetupOp::CreateVertexBuffer { entity: k, vertex_count: e.vertex_count });
        proof {
            assert(ops@ =~= after_samplers + Seq::new(
                (k + 1) as nat,
                |j: int|
                    SetupOp::CreateVertexBuffer {
                        entity: j as usize,
                        vertex_count: scene@[j].1.vertex_count,
                    },
            ));
        }
        k = k + 1;
    }
    let ghost after_vertex = ops@;
    let mut k: usize = 0;
    while k < scene.len()
        invariant
            k <= scene@.len(),
            scene.wf(),
            ops@ == after_vertex + Seq::new(
                k as nat,
                |j: int|
                    SetupOp::CreateIndexBuffer {
                        entity: j as usize,
                        index_count: scene@[j].1.index_count,
                    },
            ),
        decreases scene@.len() - k,
    {
        let e = scene.entity_at(k);
        ops.push(SetupOp::CreateIndexBuffer { entity: k, index_count: e.index_count });
        proof {
            assert(ops@ =~= after_vertex + Seq::new(
                (k + 1) as nat,
                |j: int|
                    SetupOp::CreateIndexBuffer {
                        entity: j as usize,
                        index_count: scene@[j].1.index_count,
                    },
            ));
        }
        k = k + 1;
    }
    let ghost after_index = ops@;
    let mut k: usize = 0;
    while k < scene.len()
        invariant
            k <= scene@.len(),
            ops@ == after_index + Seq::new(
                k as nat,
                |j: int| SetupOp::CreateDescriptorSet { entity: j as usize },
            ),
        decreases scene@.len() - k,
    {
        ops.push(SetupOp::CreateDescriptorSet { entity: k });
        proof {
            assert(ops@ =~= after_index + Seq::new(
                (k + 1) as nat,
                |j: int| SetupOp::CreateDescriptorSet { entity: j as usize },
            ));
        }
        k = k + 1;
    }
    ops.push(SetupOp::CreatePipeline);
    if msaa_enabled {
        ops.push(SetupOp::CreateColorImage);
    }
    ops.push(SetupOp::CreateDepthImage);
    let ghost after_depth = ops@;
    let mut i: usize = 0;
    while i < image_count
        invariant
            i <= image_count,
            ops@ == after_depth + Seq::new(
                i as nat,
                |j: int| SetupOp::CreateFramebuffer { image: j as usize },
            ),
        decreases image_count - i,
    {
        ops.push(SetupOp::CreateFramebuffer { image: i });
        proof {
            assert(ops@ =~= after_depth + Seq::new(
                (i + 1) as nat,
                |j: int| SetupOp::CreateFramebuffer { image: j as usize },
            ));
        }
        i = i + 1;
    }
    let ghost after_framebuffers = ops@;
    let mut i: usize = 0;
    while i < image_count
        invariant
            i <= image_count,
            ops@ == after_framebuffers + Seq::new(
                i as nat,
                |j: int| SetupOp::CreateCommandBuffer { image: j as usize },
            ),
        decreases image_count - i,
    {
        ops.push(SetupOp::CreateCommandBuffer { image: i });
        proof {
            assert(ops@ =~= after_framebuffers + Seq::new(
                (i + 1) as nat,
                |j: int| SetupOp::CreateCommandBuffer { image: j as usize },
            ));
        }
        i = i + 1;
    }
    let ghost after_commands = ops@;
    let mut s: usize = 0;
    while s < flight_count
        invariant
            s <= flight_count,
            ops@ == after_commands + Seq::new(
                s as nat,
                |j: int| SetupOp::CreateImageAvailableSemaphore { slot: j as usize },
            ),
        decreases flight_count - s,
    {
        ops.push(SetupOp::CreateImageAvailableSemaphore { slot: s });
        proof {
            assert(ops@ =~= after_commands + Seq::new(
                (s + 1) as nat,
                |j: int| SetupOp::CreateImageAvailableSemaphore { slot: j as usize },
            ));
        }
        s = s + 1;
    }
    let ghost after_wait_semaphores = ops@;
    let mut s: usize = 0;
    while s < flight_count
        invariant
            s <= flight_count,
            ops@ == after_wait_semaphores + Seq::new(
                s as nat,
                |j: int| SetupOp::CreateRenderDoneSemaphore { slot: j as usize },
            ),
        decreases flight_count - s,
    {
        ops.push(SetupOp::CreateRenderDoneSemaphore { slot: s });
        proof {
            assert(ops@ =~= after_wait_semaphores + Seq::new(
                (s + 1) as nat,
                |j: int| SetupOp::CreateRenderDoneSemaphore { slot: j as usize },
            ));
        }
        s = s + 1;
    }
    let ghost after_signal_semaphores = ops@;
    let mut s: usize = 0;
    while s < flight_count
        invariant
            s <= flight_count,
            ops@ == after_signal_semaphores + Seq::new(
                s as nat,
                |j: int| SetupOp::CreateFrameFence { slot: j as usize, signaled: true },
            ),
        decreases flight_count - s,
    {
        ops.push(SetupOp::CreateFrameFence { slot: s, signaled: true });
        proof {
            assert(ops@ =~= after_signal_semaphores + Seq::new(
                (s + 1) as nat,
                |j: int| SetupOp::CreateFrameFence { slot: j as usize, signaled: true },
            ));
        }
        s = s + 1;
    }
    let ghost after_signaled_fences = ops@;
    let mut s: usize = 0;
    while s < flight_count
        invariant
            s <= flight_count,
            ops@ == after_signaled_fences + Seq::new(
                s as nat,
                |j: int| SetupOp::CreateFrameFence { slot: j as usize, signaled: false },
            ),
        decreases flight_count - s,
    {
        ops.push(SetupOp::CreateFrameFence { slot: s, signaled: false });
        proof {
            assert(ops@ =~= after_signaled_fences + Seq::new(
                (s + 1) as nat,
                |j: int| SetupOp::CreateFrameFence { slot: j as usize, signaled: false },
            ));
        }
        s = s + 1;
    }
    proof {
        assert(ops@ =~= spec_setup_ops(scene@, image_count, flight_count, msaa_enabled));
    }
    ops
}

/// One resource destruction of the shutdown phase.
#[derive(Clone, Copy, Debug, PartialEq, Eq, Structural)]
pub enum DestroyOp {
    DeviceWaitIdle,
    DestroySampler { entity: usize },
    DestroyTextureImage { entity: usize },
    DestroyDepthImage,
    DestroyDescriptorSet { entity: usize },
    DestroyIndexBuffer { entity: usize },
    DestroyVertexBuffer { entity: usize },
    DestroyDescriptorPool,
    DestroyUniformBuffer { image: usize },
    DestroyFrameFence { slot: usize, signaled: bool },
    DestroyRenderDoneSemaphore { slot: usize },
    DestroyImageAvailableSemaphore { slot: usize },
    DestroyColorImage,
    DestroyCommandPool,
    DestroyFramebuffer { image: usize },
    DestroyPipeline,
    DestroyRenderPass,
    DestroySwapchain,
    DestroyDevice,
    DestroySurface,
    DestroyDebugMessenger,
    DestroyInstance,
}

/// The whole shutdown plan: nothing is destroyed before the device has gone
/// idle, every resource is destroyed exactly once, and each resource falls
/// after everything that depends on it — samplers and images before the
/// descriptor sets that reference them, sets before their pool, everything
/// device-owned before the device, the device before the surface and the
/// instance.
pub open spec fn spec_teardown_ops(
    entity_count: usize,
    image_count: usize,
    flight_count: usize,
    msaa_enabled: bool,
) -> Seq<DestroyOp> {
    seq![DestroyOp::DeviceWaitIdle] + Seq::new(
        entity_count as nat,
        |k: int| DestroyOp::DestroySampler { entity: k as usize },
    ) + Seq::new(entity_count as nat, |k: int| DestroyOp::DestroyTextureImage { entity: k as usize })
        + seq![DestroyOp::DestroyDepthImage] + Seq::new(
        entity_count as nat,
        |k: int| DestroyOp::DestroyDescriptorSet { entity: k as usize },
    ) + Seq::new(entity_count as nat, |k: int| DestroyOp::DestroyIndexBuffer { entity: k as usize })
        + Seq::new(
        entity_count as nat,
        |k: int| DestroyOp::DestroyVertexBuffer { entity: k as usize },
    ) + seq![DestroyOp::DestroyDescriptorPool] + Seq::new(
        image_count as nat,
        |i: int| DestroyOp::DestroyUniformBuffer { image: i as usize },
    ) + Seq::new(
        flight_count as nat,
        |s: int| DestroyOp::DestroyFrameFence { slot: s as usize, signaled: false },
    ) + Seq::new(
        flight_count as nat,
        |s: int| DestroyOp::DestroyFrameFence { slot: s as usize, signaled: true },
    ) + Seq::new(
        flight_count as nat,
        |s: int| DestroyOp::DestroyRenderDoneSemaphore { slot: s as usize },
    ) + Seq::new(
        flight_count as nat,
        |s: int| DestroyOp::DestroyImageAvailableSemaphore { slot: s as usize },
    ) + (if msaa_enabled {
        seq![DestroyOp::DestroyColorImage]
    } else {
        Seq::empty()
    }) + seq![DestroyOp::DestroyCommandPool] + Seq::new(
        image_count as nat,
        |i: int| DestroyOp::DestroyFramebuffer { image: i as usize },
    )
        + seq![
        DestroyOp::DestroyPipeline,
        DestroyOp::DestroyRenderPass,
        DestroyOp::DestroySwapchain,
        DestroyOp::DestroyDevice,
        DestroyOp::DestroySurface,
        DestroyOp::DestroyDebugMessenger,
        DestroyOp::DestroyInstance,
    ]
}

/// The ordered shutdown plan.
pub fn teardown_plan(
    entity_count: usize,
    image_count: usize,
    flight_count: usize,
    msaa_enabled: bool,
) -> (ops: Vec<DestroyOp>)
    ensures
        ops@ == spec_teardown_ops(entity_count, image_count, flight_count, msaa_enabled),
        ops@.len() >= 1,
        ops@[0] == DestroyOp::DeviceWaitIdle,
{
    let mut ops: Vec<DestroyOp> = Vec::new();
    ops.push(DestroyOp::DeviceWaitIdle);
    let ghost start = ops@;
    let mut k: usize = 0;
    while k < entity_count
        invariant
            k <= entity_count,
            ops@ == start + Seq::new(
                k as nat,
                |j: int| DestroyOp::DestroySampler { entity: j as usize },
            ),
        decreases entity_count - k,
    {
        ops.push(DestroyOp::DestroySampler { entity: k });
        proof {
            assert(ops@ =~= start + Seq::new(
                (k + 1) as nat,
                |j: int| DestroyOp::DestroySampler { entity: j as usize },
            ));
        }
        k = k + 1;
    }
    let ghost c1 = ops@;
    let mut k: usize = 0;
    while k < entity_count
        invariant
            k <= entity_count,
            ops@ == c1 + Seq::new(
                k as nat,
                |j: int| DestroyOp::DestroyTextureImage { entity: j as usize },
            ),
        decreases entity_count - k,
    {
        ops.push(DestroyOp::DestroyTextureImage { entity: k });
        proof {
            assert(ops@ =~= c1 + Seq::new(
                (k + 1) as nat,
                |j: int| DestroyOp::DestroyTextureImage { entity: j as usize },
            ));
        }
        k = k + 1;
    }
    ops.push(DestroyOp::DestroyDepthImage);
    let ghost c2 = ops@;
    let mut k: usize = 0;
    while k < entity_count
        invariant
            k <= entity_count,
            ops@ == c2 + Seq::new(
                k as nat,
                |j: int| DestroyOp::DestroyDescriptorSet { entity: j as usize },
            ),
        decreases entity_count - k,
    {
        ops.push(DestroyOp::DestroyDescriptorSet { entity: k });
        proof {
            assert(ops@ =~= c2 + Seq::new(
                (k + 1) as nat,
                |j: int| DestroyOp::DestroyDescriptorSet { entity: j as usize },
            ));
        }
        k = k + 1;
    }
    let ghost c3 = ops@;
    let mut k: usize = 0;
    while k < entity_count
        invariant
            k <= entity_count,
            ops@ == c3 + Seq::new(
                k as nat,
                |j: int| DestroyOp::DestroyIndexBuffer { entity: j as usize },
            ),
        decreases entity_count - k,
    {
        ops.push(DestroyOp::DestroyIndexBuffer { entity: k });
        proof {
            assert(ops@ =~= c3 + Seq::new(
                (k + 1) as nat,
                |j: int| DestroyOp::DestroyIndexBuffer { entity: j as usize },
            ));
        }
        k = k + 1;
    }
    let ghost c4 = ops@;
    let mut k: usize = 0;
    while k < entity_count
        invariant
            k <= entity_count,
            ops@ == c4 + Seq::new(
                k as nat,
                |j: int| DestroyOp::DestroyVertexBuffer { entity: j as usize },
            ),
        decreases entity_count - k,
    {
        ops.push(DestroyOp::DestroyVertexBuffer { entity: k });
        proof {
            assert(ops@ =~= c4 + Seq::new(
                (k + 1) as nat,
                |j: int| DestroyOp::DestroyVertexBuffer { entity: j as usize },
            ));
        }
        k = k + 1;
    }
    ops.push(DestroyOp::DestroyDescriptorPool);
    let ghost c5 = ops@;
    let mut i: usize = 0;
    while i < image_count
        invariant
            i <= image_count,
            ops@ == c5 + Seq::new(
                i as nat,
                |j: int| DestroyOp::DestroyUniformBuffer { image: j as usize },
            ),
        decreases image_count - i,
    {
        ops.push(DestroyOp::DestroyUniformBuffer { image: i });
        proof {
            assert(ops@ =~= c5 + Seq::new(
                (i + 1) as nat,
                |j: int| DestroyOp::DestroyUniformBuffer { image: j as usize },
            ));
        }
        i = i + 1;
    }
    let ghost c6 = ops@;
    let mut s: usize = 0;
    while s < flight_count
        invariant
            s <= flight_count,
            ops@ == c6 + Seq::new(
                s as nat,
                |j: int| DestroyOp::DestroyFrameFence { slot: j as usize, signaled: false },
            ),
        decreases flight_count - s,
    {
        ops.push(DestroyOp::DestroyFrameFence { slot: s, signaled: false });
        proof {
            assert(ops@ =~= c6 + Seq::new(
                (s + 1) as nat,
                |j: int| DestroyOp::DestroyFrameFence { slot: j as usize, signaled: false },
            ));
        }
        s = s + 1;
    }
    let ghost c7 = ops@;
    let mut s: usize = 0;
    while s < flight_count
        invariant
            s <= flight_count,
            ops@ == c7 + Seq::new(
                s as nat,
                |j: int| DestroyOp::DestroyFrameFence { slot: j as usize, signaled: true },
            ),
        decreases flight_count - s,
    {
        ops.push(DestroyOp::DestroyFrameFence { slot: s, signaled: true });
        proof {
            assert(ops@ =~= c7 + Seq::new(
                (s + 1) as nat,
                |j: int| DestroyOp::DestroyFrameFence { slot: j as usize, signaled: true },
            ));
        }
        s = s + 1;
    }
    let ghost c8 = ops@;
    let mut s: usize = 0;
    while s < flight_count
        invariant
            s <= flight_count,
            ops@ == c8 + Seq::new(
                s as nat,
                |j: int| DestroyOp::DestroyRenderDoneSemaphore { slot: j as usize },
            ),
        decreases flight_count - s,
    {
        ops.push(DestroyOp::DestroyRenderDoneSemaphore { slot: s });
        proof {
            assert(ops@ =~= c8 + Seq::new(
                (s + 1) as nat,
                |j: int| DestroyOp::DestroyRenderDoneSemaphore { slot: j as usize },
            ));
        }
        s = s + 1;
    }
    let ghost c9 = ops@;
    let mut s: usize = 0;
    while s < flight_count
        invariant
            s <= flight_count,
            ops@ == c9 + Seq::new(
                s as nat,
                |j: int| DestroyOp::DestroyImageAvailableSemaphore { slot: j as usize },
            ),
        decreases flight_count - s,
    {
        ops.push(DestroyOp::DestroyImageAvailableSemaphore { slot: s });
        proof {
            assert(ops@ =~= c9 + Seq::new(
                (s + 1) as nat,
                |j: int| DestroyOp::DestroyImageAvailableSemaphore { slot: j as usize },
            ));
        }
        s = s + 1;
    }
    if msaa_enabled {
        ops.push(DestroyOp::DestroyColorImage);
    }
    ops.push(DestroyOp::DestroyCommandPool);
    let ghost c10 = ops@;
    let mut i: usize = 0;
    while i < image_count
        invariant
            i <= image_count,
            ops@ == c10 + Seq::new(
                i as nat,
                |j: int| DestroyOp::DestroyFramebuffer { image: j as usize },
            ),
        decreases image_count - i,
    {
        ops.push(DestroyOp::DestroyFramebuffer { image: i });
        proof {
            assert(ops@ =~= c10 + Seq::new(
                (i + 1) as nat,
                |j: int| DestroyOp::DestroyFramebuffer { image: j as usize },
            ));
        }
        i = i + 1;
    }
    ops.push(DestroyOp::DestroyPipeline);
    ops.push(DestroyOp::DestroyRenderPass);
    ops.push(DestroyOp::DestroySwapchain);
    ops.push(DestroyOp::DestroyDevice);
    ops.push(DestroyOp::DestroySurface);
    ops.push(DestroyOp::DestroyDebugMessenger);
    ops.push(DestroyOp::DestroyInstance);
    proof {
        assert(ops@ =~= spec_teardown_ops(entity_count, image_count, flight_count, msaa_enabled));
    }
    ops
}

} // verus!
