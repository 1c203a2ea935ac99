//! The frame orchestrator: per-frame state and the ordered plan of one frame.
//!
//! The orchestrator owns the in-flight slot index and cycles it modulo the
//! in-flight count every frame. A frame's plan is produced in two halves that
//! mirror the acquire protocol: `begin_frame` yields the wait on the slot's
//! frame-done fence and the image acquisition, the application shell performs
//! them and learns the acquired image index, and `finish_frame` yields the
//! rest: the guard wait when another slot still uses that image, command
//! recording with one indexed draw per scene entity, the fence reset, the
//! submission and the presentation. The contracts pin the plans down exactly,
//! and the pacing lemmas state the synchronization rules the plans obey.

use vstd::prelude::*;
use vstd::arithmetic::div_mod::{
    lemma_fundamental_div_mod, lemma_fundamental_div_mod_converse, lemma_mod_bound,
    lemma_mod_multiples_basic, lemma_mod_self_0, lemma_small_mod,
};
use crate::scene::SceneGraph;

verus! {

/// One entity as the recorded frame reads it: the key of its resource set
/// (its position in the scene) and how many indices its mesh draws.
#[derive(Clone, Copy, Debug, PartialEq, Eq, Structural)]
pub struct DrawEntity {
    pub entity: usize,
    pub index_count: u32,
}

/// One step of a frame's plan, replayed in order by the application shell.
#[derive(Clone, Copy, Debug, PartialEq, Eq, Structural)]
pub enum FrameOp {
    /// Block until the slot's frame-done fence is signaled.
    WaitFence { slot: usize },
    /// Acquire the next swapchain image; the presentation engine signals the
    /// slot's image-available semaphore when the image is ready.
    AcquireImage { wait_semaphore_slot: usize },
    /// Block on the frame-done fence of the slot that last submitted work
    /// for the acquired image.
    WaitImageFence { slot: usize },
    /// Reset the acquired image's command buffer.
    ResetCommandBuffer { image: usize },
    /// Rewrite the acquired image's uniform buffer with fresh view and
    /// projection data.
    UpdateUniformBuffer { image: usize },
    /// Begin the command buffer and render pass, bind the pipeline, set the
    /// viewport and scissor.
    BeginRecording { image: usize },
    /// Bind one entity's vertex buffer.
    BindVertexBuffer { image: usize, entity: usize },
    /// Bind one entity's index buffer.
    BindIndexBuffer { image: usize, entity: usize },
    /// Bind one entity's descriptor set.
    BindDescriptorSet { image: usize, entity: usize },
    /// Push one entity's model matrix as a push constant.
    PushModelMatrix { image: usize, entity: usize },
    /// Issue one entity's indexed draw.
    DrawIndexed { image: usize, entity: usize, index_count: u32 },
    /// End the render pass and the command buffer.
    FinishRecording { image: usize },
    /// Unsignal the slot's frame-done fence immediately before submitting.
    ResetFence { slot: usize },
    /// Submit the image's command buffer: wait on the slot's image-available
    /// semaphore at color-attachment output, signal the slot's render-done
    /// semaphore, signal the slot's frame-done fence.
    Submit {
        image: usize,
        wait_semaphore_slot: usize,
        signal_semaphore_slot: usize,
        fence_slot: usize,
    },
    /// Present the image on the present queue, waiting on the slot's
    /// render-done semaphore.
    Present { image: usize, wait_semaphore_slot: usize },
}

/// Whether an op uses one of a slot's per-slot synchronization resources:
/// its image-available semaphore, its render-done semaphore, or its
/// frame-done fence. The wait on the fence itself is the guard, not a reuse.
pub open spec fn op_uses_slot(op: FrameOp, slot: usize) -> bool {
    match op {
        FrameOp::AcquireImage { wait_semaphore_slot } => wait_semaphore_slot == slot,
        FrameOp::ResetFence { slot: s } => s == slot,
        FrameOp::Submit { wait_semaphore_slot, signal_semaphore_slot, fence_slot, .. } => {
            ||| wait_semaphore_slot == slot
            ||| signal_semaphore_slot == slot
            ||| fence_slot == slot
        },
        FrameOp::Present { wait_semaphore_slot, .. } => wait_semaphore_slot == slot,
        _ => false,
    }
}

/// Whether an op rewrites one of an image's per-image resources: its command
/// buffer (reset or any recording into it) or its uniform buffer.
pub open spec fn op_writes_image(op: FrameOp, image: usize) -> bool {
    match op {
        FrameOp::ResetCommandBuffer { image: i } => i == image,
        FrameOp::UpdateUniformBuffer { image: i } => i == image,
        FrameOp::BeginRecording { image: i } => i == image,
        FrameOp::BindVertexBuffer { image: i, .. } => i == image,
        FrameOp::BindIndexBuffer { image: i, .. } => i == image,
        FrameOp::BindDescriptorSet { image: i, .. } => i == image,
        FrameOp::PushModelMatrix { image: i, .. } => i == image,
        FrameOp::DrawIndexed { image: i, .. } => i == image,
        FrameOp::FinishRecording { image: i } => i == image,
        _ => false,
    }
}

/// The first half of a frame's plan: wait on the slot's frame-done fence,
/// then acquire an image with the slot's image-available semaphore.
pub open spec fn spec_begin_ops(slot: usize) -> Seq<FrameOp> {
    seq![
        FrameOp::WaitFence { slot },
        FrameOp::AcquireImage { wait_semaphore_slot: slot },
    ]
}

/// The five recording steps of one entity's draw.
pub open spec fn entity_ops(e: DrawEntity, image: usize) -> Seq<FrameOp> {
    seq![
        FrameOp::BindVertexBuffer { image, entity: e.entity },
        FrameOp::BindIndexBuffer { image, entity: e.entity },
        FrameOp::BindDescriptorSet { image, entity: e.entity },
        FrameOp::PushModelMatrix { image, entity: e.entity },
        FrameOp::DrawIndexed { image, entity: e.entity, index_count: e.index_count },
    ]
}

/// The recording steps of all entities, in scene order.
pub open spec fn entities_ops(entities: Seq<DrawEntity>, image: usize) -> Seq<FrameOp>
    decreases entities.len(),
{
    if entities.len() == 0 {
        Seq::empty()
    } else {
        entity_ops(entities[0], image) + entities_ops(entities.drop_first(), image)
    }
}

/// Appending one entity appends its five recording steps.
pub proof fn lemma_entities_ops_push(entities: Seq<DrawEntity>, e: DrawEntity, image: usize)
    ensures
        entities_ops(entities.push(e), image) == entities_ops(entities, image) + entity_ops(
            e,
            image,
        ),
    decreases entities.len(),
{
    if entities.len() == 0 {
        assert(entities.push(e).drop_first() =~= Seq::<DrawEntity>::empty());
        assert(entities.push(e)[0] == e);
        assert(entities_ops(entities.push(e), image) == entity_ops(e, image) + entities_ops(
            Seq::<DrawEntity>::empty(),
            image,
        ));
        assert(entities_ops(entities.push(e), image) =~= entities_ops(entities, image)
            + entity_ops(e, image));
    } else {
        assert(entities.push(e)[0] == entities[0]);
        assert(entities.push(e).drop_first() =~= entities.drop_first().push(e));
        assert(entities_ops(entities.push(e), image) == entity_ops(entities[0], image)
            + entities_ops(entities.drop_first().push(e), image));
        lemma_entities_ops_push(entities.drop_first(), e, image);
        assert(entities_ops(entities.push(e), image) =~= entities_ops(entities, image)
            + entity_ops(e, image));
    }
}

/// Five steps per entity, and the steps of entity `k` stand at positions
/// `5k` to `5k + 4`.
pub proof fn lemma_entities_ops_index(entities: Seq<DrawEntity>, image: usize)
    ensures
        entities_ops(entities, image).len() == 5 * entities.len(),
        forall|k: int, r: int|
            0 <= k < entities.len() && 0 <= r < 5 ==> entities_ops(entities, image)[5 * k + r]
                == entity_ops(entities[k], image)[r],
    decreases entities.len(),
{
    if entities.len() > 0 {
        lemma_entities_ops_index(entities.drop_first(), image);
        assert forall|k: int, r: int|
            0 <= k < entities.len() && 0 <= r < 5 implies entities_ops(entities, image)[5 * k + r]
            == entity_ops(entities[k], image)[r] by {
            if k == 0 {
                assert(entities_ops(entities, image)[r] == entity_ops(entities[0], image)[r]);
            } else {
                assert(5 * k + r - 5 == 5 * (k - 1) + r);
                assert(entities_ops(entities, image)[5 * k + r] == entities_ops(
                    entities.drop_first(),
                    image,
                )[5 * (k - 1) + r]);
                assert(entities.drop_first()[k - 1] == entities[k]);
            }
        }
    }
}

/// The second half of a frame's plan, after the image index is known: the
/// guard wait when another slot still uses the image, the command-buffer
/// reset and uniform rewrite, recording with one draw per entity, the fence
/// reset, the submission, and the presentation.
pub open spec fn spec_record_ops(
    slot: usize,
    prior_image_user: Option<usize>,
    entities: Seq<DrawEntity>,
    image: usize,
) -> Seq<FrameOp> {
    (match prior_image_user {
        Some(guard_slot) => seq![FrameOp::WaitImageFence { slot: guard_slot }],
        None => Seq::empty(),
    }) + seq![
        FrameOp::ResetCommandBuffer { image },
        FrameOp::UpdateUniformBuffer { image },
        FrameOp::BeginRecording { image },
    ] + entities_ops(entities, image) + seq![
        FrameOp::FinishRecording { image },
        FrameOp::ResetFence { slot },
        FrameOp::Submit {
            image,
            wait_semaphore_slot: slot,
            signal_semaphore_slot: slot,
            fence_slot: slot,
        },
        FrameOp::Present { image, wait_semaphore_slot: slot },
    ]
}

/// The frame orchestrator's state: the in-flight slot cycle, which slot last
/// used each swapchain image, and the per-entity draw table fixed at
/// construction.
pub struct Renderer {
    flight_count: usize,
    frame: usize,
    ticks: Ghost<nat>,
    awaiting_image: bool,
    image_slots: Vec<Option<usize>>,
    draw_entities: Vec<DrawEntity>,
}

impl Renderer {
    /// In-flight slots.
    pub closed spec fn spec_flight_count(&self) -> usize {
        self.flight_count
    }

    /// The current in-flight slot.
    pub closed spec fn spec_frame(&self) -> usize {
        self.frame
    }

    /// Frames completed since construction.
    pub closed spec fn spec_ticks(&self) -> nat {
        self.ticks@
    }

    /// Whether `begin_frame` has run and `finish_frame` is owed.
    pub closed spec fn spec_awaiting_image(&self) -> bool {
        self.awaiting_image
    }

    /// Which slot last submitted work for each swapchain image.
    pub closed spec fn spec_image_slots(&self) -> Seq<Option<usize>> {
        self.image_slots@
    }

    /// Swapchain images.
    pub closed spec fn spec_image_count(&self) -> usize {
        self.image_slots@.len() as usize
    }

    /// The per-entity draw table, in scene order.
    pub closed spec fn spec_entities(&self) -> Seq<DrawEntity> {
        self.draw_entities@
    }

    /// At least one in-flight slot and one image; the slot index cycles with
    /// the completed-frame count; every recorded image user is a real slot;
    /// the draw table is keyed by position.
    pub closed spec fn wf(&self) -> bool {
        &&& self.flight_count >= 1
        &&& self.frame < self.flight_count
        &&& self.frame == self.ticks@ % self.flight_count as nat
        &&& self.image_slots@.len() >= 1
        &&& forall|i: int|
            0 <= i < self.image_slots@.len() ==> ((#[trigger] self.image_slots@[i]) matches Some(s)
                ==> s < self.flight_count)
        &&& forall|k: int|
            0 <= k < self.draw_entities@.len() ==> (#[trigger] self.draw_entities@[k]).entity == k
    }

    /// A new orchestrator over a scene: slot zero is current, no image has a
    /// prior user, and the draw table lists every scene entity in order,
    /// keyed by its position.
    pub fn new(flight_count: usize, image_count: usize, scene: &SceneGraph) -> (r: Renderer)
        requires
            flight_count >= 1,
            image_count >= 1,
            scene.wf(),
        ensures
            r.wf(),
            r.spec_flight_count() == flight_count,
            r.spec_image_count() == image_count,
            r.spec_frame() == 0,
            r.spec_ticks() == 0,
            !r.spec_awaiting_image(),
            forall|i: int| 0 <= i < image_count ==> (#[trigger] r.spec_image_slots()[i]) is None,
            r.spec_entities().len() == scene@.len(),
            forall|k: int|
                0 <= k < scene@.len() ==> (#[trigger] r.spec_entities()[k]) == (DrawEntity {
                    entity: k as usize,
                    index_count: scene@[k].1.index_count,
                }),
    {
        let mut image_slots: Vec<Option<usize>> = Vec::new();
        let mut i: usize = 0;
        while i < image_count
            invariant
                i <= image_count,
                image_slots@.len() == i,
                forall|j: int| 0 <= j < i ==> (#[trigger] image_slots@[j]) is None,
            decreases image_count - i,
        {
            image_slots.push(None);
            i = i + 1;
        }
        let mut draw_entities: Vec<DrawEntity> = Vec::new();
        let mut k: usize = 0;
        while k < scene.len()
            invariant
                k <= scene@.len(),
                draw_entities@.len() == k,
                forall|j: int|
                    0 <= j < k ==> (#[trigger] draw_entities@[j]) == (DrawEntity {
                        entity: j as usize,
                        index_count: scene@[j].1.index_count,
                    }),
            decreases scene@.len() - k,
        {
            let entity = scene.entity_at(k);
            draw_entities.push(DrawEntity { entity: k, index_count: entity.index_count });
            k = k + 1;
        }
        proof {
            lemma_small_mod(0nat, flight_count as nat);
        }
        Renderer {
            flight_count,
            frame: 0,
            ticks: Ghost(0),
            awaiting_image: false,
            image_slots,
            draw_entities,
        }
    }

    /// The current in-flight slot.
    pub fn frame(&self) -> (slot: usize)
        ensures
            slot == self.spec_frame(),
    {
        self.frame
    }

    /// In-flight slots.
    pub fn flight_count(&self) -> (n: usize)
        ensures
            n == self.spec_flight_count(),
    {
        self.flight_count
    }

    /// Swapchain images known to the orchestrator.
    pub fn image_count(&self) -> (n: usize)
        ensures
            n == self.spec_image_count(),
    {
        self.image_slots.len()
    }

    /// The first half of a frame: the plan that waits on the current slot's
    /// frame-done fence and acquires an image with the slot's
    /// image-available semaphore. The shell performs it and passes the
    /// acquired image index to `finish_frame`.
    pub fn begin_frame(&mut self) -> (ops: Vec<FrameOp>)
        requires
            old(self).wf(),
            !old(self).spec_awaiting_image(),
        ensures
            final(self).wf(),
            final(self).spec_awaiting_image(),
            final(self).spec_flight_count() == old(self).spec_flight_count(),
            final(self).spec_image_count() == old(self).spec_image_count(),
            final(self).spec_frame() == old(self).spec_frame(),
            final(self).spec_ticks() == old(self).spec_ticks(),
            final(self).spec_image_slots() == old(self).spec_image_slots(),
            final(self).spec_entities() == old(self).spec_entities(),
            ops@ == spec_begin_ops(old(self).spec_frame()),
    {
        self.awaiting_image = true;
        let mut ops: Vec<FrameOp> = Vec::new();
        ops.push(FrameOp::WaitFence { slot: self.frame });
        ops.push(FrameOp::AcquireImage { wait_semaphore_slot: self.frame });
        proof {
            assert(ops@ =~= spec_begin_ops(self.frame));
        }
        ops
    }

    /// The second half of a frame, once the image index is known: the
    /// recording, submission and presentation plan. The current slot becomes
    /// the image's recorded user and the slot index advances by one, modulo
    /// the in-flight count.
    pub fn finish_frame(&mut self, image_index: usize) -> (ops: Vec<FrameOp>)
        requires
            old(self).wf(),
            old(self).spec_awaiting_image(),
            image_index < old(self).spec_image_count(),
        ensures
            final(self).wf(),
            !final(self).spec_awaiting_image(),
            final(self).spec_flight_count() == old(self).spec_flight_count(),
            final(self).spec_image_count() == old(self).spec_image_count(),
            final(self).spec_ticks() == old(self).spec_ticks() + 1,
            final(self).spec_frame() == (old(self).spec_frame() + 1) as nat % old(
                self,
            ).spec_flight_count() as nat,
            final(self).spec_image_slots() == old(self).spec_image_slots().update(
                image_index as int,
                Some(old(self).spec_frame()),
            ),
            final(self).spec_entities() == old(self).spec_entities(),
            ops@ == spec_record_ops(
                old(self).spec_frame(),
                old(self).spec_image_slots()[image_index as int],
                old(self).spec_entities(),
                image_index,
            ),
    {
        let slot = self.frame;
        let mut ops: Vec<FrameOp> = Vec::new();
        match self.image_slots[image_index] {
            Some(guard_slot) => {
                ops.push(FrameOp::WaitImageFence { slot: guard_slot });
            },
            None => {},
        }
        ops.push(FrameOp::ResetCommandBuffer { image: image_index });
        ops.push(FrameOp::UpdateUniformBuffer { image: image_index });
        ops.push(FrameOp::BeginRecording { image: image_index });
        let ghost prefix = ops@;
        let mut k: usize = 0;
        while k < self.draw_entities.len()
            invariant
                k <= self.draw_entities@.len(),
                ops@ == prefix + entities_ops(self.draw_entities@.take(k as int), image_index),
            decreases self.draw_entities@.len() - k,
        {
            let e = self.draw_entities[k];
            ops.push(FrameOp::BindVertexBuffer { image: image_index, entity: e.entity });
            ops.push(FrameOp::BindIndexBuffer { image: image_index, entity: e.entity });
            ops.push(FrameOp::BindDescriptorSet { image: image_index, entity: e.entity });
            ops.push(FrameOp::PushModelMatrix { image: image_index, entity: e.entity });
            ops.push(
                FrameOp::DrawIndexed {
                    image: image_index,
                    entity: e.entity,
                    index_count: e.index_count,
                },
            );
            proof {
                lemma_entities_ops_push(self.draw_entities@.take(k as int), e, image_index);
                assert(self.draw_entities@.take(k as int).push(e) =~= self.draw_entities@.take(
                    k as int + 1,
                ));
                assert(ops@ =~= prefix + entities_ops(
                    self.draw_entities@.take(k as int + 1),
                    image_index,
                ));
            }
            k = k + 1;
        }
        proof {
            assert(self.draw_entities@.take(self.draw_entities@.len() as int)
                =~= self.draw_entities@);
        }
        ops.push(FrameOp::FinishRecording { image: image_index });
        ops.push(FrameOp::ResetFence { slot });
        ops.push(
            FrameOp::Submit {
                image: image_index,
                wait_semaphore_slot: slot,
                signal_semaphore_slot: slot,
                fence_slot: slot,
            },
        );
        ops.push(FrameOp::Present { image: image_index, wait_semaphore_slot: slot });
        proof {
            assert(ops@ =~= spec_record_ops(
                slot,
                old(self).spec_image_slots()[image_index as int],
                old(self).spec_entities(),
                image_index,
            ));
        }
        self.image_slots.set(image_index, Some(slot));
        self.awaiting_image = false;
        let next_frame = if self.frame + 1 == self.flight_count {
            0
        } else {
            self.frame + 1
        };
        proof {
            lemma_mod_succ(self.ticks@, self.flight_count as nat);
            if self.frame + 1 == self.flight_count {
                lemma_mod_self_0(self.flight_count as int);
            } else {
                lemma_small_mod((self.frame + 1) as nat, self.flight_count as nat);
            }
        }
        self.frame = next_frame;
        self.ticks = Ghost(self.ticks@ + 1);
        ops
    }
}

/// Advancing a counter by one advances its remainder cyclically.
pub proof fn lemma_mod_succ(t: nat, n: nat)
    requires
        n >= 1,
    ensures
        (t + 1) % n == if t % n + 1 == n {
            0nat
        } else {
            (t % n + 1) as nat
        },
{
    lemma_fundamental_div_mod(t as int, n as int);
    let q = t as int / n as int;
    let r = t as int % n as int;
    assert(t as int == n as int * q + r);
    if r + 1 == n {
        assert(t + 1 == n * (q + 1)) by {
            assert(n as int * (q + 1) == n as int * q + n as int) by (nonlinear_arith);
        }
        lemma_mod_multiples_basic(q + 1, n as int);
        assert((n as int * (q + 1)) % n as int == 0);
    } else {
        assert(t as int + 1 == q * n as int + (r + 1)) by {
            assert(q * n as int == n as int * q) by (nonlinear_arith);
        }
        lemma_fundamental_div_mod_converse(t as int + 1, n as int, q, r + 1);
    }
}


/// No recording step of any entity touches a slot's synchronization
/// resources, and every one of them writes only the acquired image's
/// resources.
pub proof fn lemma_entities_ops_kinds(entities: Seq<DrawEntity>, image: usize)
    ensures
        forall|j: int, s: usize|
            0 <= j < entities_ops(entities, image).len() ==> !(#[trigger] op_uses_slot(
                entities_ops(entities, image)[j],
                s,
            )),
        forall|j: int, im: usize|
            0 <= j < entities_ops(entities, image).len() && (#[trigger] op_writes_image(
                entities_ops(entities, image)[j],
                im,
            )) ==> im == image,
    decreases entities.len(),
{
    if entities.len() > 0 {
        lemma_entities_ops_kinds(entities.drop_first(), image);
        let ops = entities_ops(entities, image);
        let head = entity_ops(entities[0], image);
        let rest = entities_ops(entities.drop_first(), image);
        assert forall|j: int, s: usize| 0 <= j < ops.len() implies !(#[trigger] op_uses_slot(
            ops[j],
            s,
        )) by {
            if j < 5 {
                assert(ops[j] == head[j]);
            } else {
                assert(ops[j] == rest[j - 5]);
                assert(!op_uses_slot(rest[j - 5], s));
            }
        }
        assert forall|j: int, im: usize|
            0 <= j < ops.len() && (#[trigger] op_writes_image(ops[j], im)) implies im == image by {
            if j < 5 {
                assert(ops[j] == head[j]);
            } else {
                assert(ops[j] == rest[j - 5]);
                assert(op_writes_image(rest[j - 5], im));
            }
        }
    }
}

/// The synchronization rule of one frame, for every in-flight count: in the
/// full plan of a frame on slot `slot`, the wait on that slot's frame-done
/// fence is the very first step; every use of any slot's image-available
/// semaphore, render-done semaphore or frame-done fence is a use of this
/// slot's, after that wait; every rewritten command or uniform buffer is the
/// acquired image's; and when another slot still had work in flight for that
/// image, the wait on that slot's fence precedes every such rewrite.
pub proof fn lemma_frame_pacing(
    slot: usize,
    prior_image_user: Option<usize>,
    entities: Seq<DrawEntity>,
    image: usize,
)
    ensures
        ({
            let script = spec_begin_ops(slot) + spec_record_ops(
                slot,
                prior_image_user,
                entities,
                image,
            );
            &&& script.len() >= 1
            &&& script[0] == (FrameOp::WaitFence { slot })
            &&& forall|j: int, s: usize|
                0 <= j < script.len() && (#[trigger] op_uses_slot(script[j], s)) ==> s == slot
                    && 1 <= j
            &&& forall|j: int, im: usize|
                0 <= j < script.len() && (#[trigger] op_writes_image(script[j], im)) ==> im
                    == image
            &&& (prior_image_user matches Some(guard_slot) ==> script[2] == (FrameOp::WaitImageFence {
                slot: guard_slot,
            }) && forall|j: int, im: usize|
                0 <= j < script.len() && (#[trigger] op_writes_image(script[j], im)) ==> 2 < j)
        }),
{
    lemma_entities_ops_kinds(entities, image);
    lemma_entities_ops_index(entities, image);
    let script = spec_begin_ops(slot) + spec_record_ops(slot, prior_image_user, entities, image);
    let guard: Seq<FrameOp> = match prior_image_user {
        Some(guard_slot) => seq![FrameOp::WaitImageFence { slot: guard_slot }],
        None => Seq::empty(),
    };
    let g = guard.len() as int;
    let ent = entities_ops(entities, image);
    let e_len = ent.len() as int;
    assert(script.len() == 9 + g + e_len);
    assert forall|j: int, s: usize|
        0 <= j < script.len() && (#[trigger] op_uses_slot(script[j], s)) implies s == slot && 1
        <= j by {
        if j >= 5 + g && j < 5 + g + e_len {
            assert(script[j] == ent[j - (5 + g)]);
            assert(!op_uses_slot(ent[j - (5 + g)], s));
        }
    }
    assert forall|j: int, im: usize|
        0 <= j < script.len() && (#[trigger] op_writes_image(script[j], im)) implies im == image by {
        if j >= 5 + g && j < 5 + g + e_len {
            assert(script[j] == ent[j - (5 + g)]);
            assert(op_writes_image(ent[j - (5 + g)], im));
        }
    }
    if prior_image_user is Some {
        assert forall|j: int, im: usize|
            0 <= j < script.len() && (#[trigger] op_writes_image(script[j], im)) implies 2 < j by {
            if j >= 5 + g && j < 5 + g + e_len {
                assert(2 < j);
            }
        }
    }
}

/// Ticks that land on the same in-flight slot are at least the in-flight
/// count apart: a slot's resources come up for reuse only after that many
/// further frames, each of whose plans begins by waiting on the slot's
/// fence.
pub proof fn lemma_slot_reuse_distance(t1: nat, t2: nat, flight_count: nat)
    requires
        flight_count >= 1,
        t1 < t2,
        t1 % flight_count == t2 % flight_count,
    ensures
        t2 - t1 >= flight_count,
{
    let n = flight_count as int;
    lemma_fundamental_div_mod(t1 as int, n);
    lemma_fundamental_div_mod(t2 as int, n);
    let q1 = t1 as int / n;
    let q2 = t2 as int / n;
    assert(t2 - t1 == n * (q2 - q1)) by {
        assert(n * q2 - n * q1 == n * (q2 - q1)) by (nonlinear_arith);
    }
    assert(q2 - q1 >= 1) by (nonlinear_arith)
        requires
            n >= 1,
            n * (q2 - q1) > 0,
    ;
    assert(n * (q2 - q1) >= n) by (nonlinear_arith)
        requires
            q2 - q1 >= 1,
            n >= 1,
    ;
}

/// Exactly one indexed draw is recorded per scene entity, in scene order,
/// and each draw stands right after the binds of that same entity's vertex
/// buffer, index buffer, descriptor set and model matrix: in a frame's
/// recording plan, the five steps of entity `k` occupy positions `base + 5k`
/// through `base + 5k + 4`, and nothing else in the plan is an indexed draw.
pub proof fn lemma_one_draw_per_entity(
    slot: usize,
    prior_image_user: Option<usize>,
    entities: Seq<DrawEntity>,
    image: usize,
)
    ensures
        ({
            let ops = spec_record_ops(slot, prior_image_user, entities, image);
            let base = (if prior_image_user is Some {
                1int
            } else {
                0int
            }) + 3;
            &&& ops.len() == base + 5 * entities.len() + 4
            &&& forall|k: int|
                0 <= k < entities.len() ==> ops[base + 5 * k + 4] == (FrameOp::DrawIndexed {
                    image,
                    entity: entities[k].entity,
                    index_count: entities[k].index_count,
                })
            &&& forall|k: int|
                0 <= k < entities.len() ==> ops[base + 5 * k] == (FrameOp::BindVertexBuffer {
                    image,
                    entity: entities[k].entity,
                }) && ops[base + 5 * k + 1] == (FrameOp::BindIndexBuffer {
                    image,
                    entity: entities[k].entity,
                }) && ops[base + 5 * k + 2] == (FrameOp::BindDescriptorSet {
                    image,
                    entity: entities[k].entity,
                }) && ops[base + 5 * k + 3] == (FrameOp::PushModelMatrix {
                    image,
                    entity: entities[k].entity,
                })
            &&& forall|j: int|
                0 <= j < ops.len() ==> ((#[trigger] ops[j]) is DrawIndexed <==> (base <= j < base
                    + 5 * entities.len() && (j - base) % 5 == 4))
        }),
{
    lemma_entities_ops_index(entities, image);
    let ops = spec_record_ops(slot, prior_image_user, entities, image);
    let base = (if prior_image_user is Some {
        1int
    } else {
        0int
    }) + 3;
    let ent = entities_ops(entities, image);
    assert forall|k: int| 0 <= k < entities.len() implies ops[base + 5 * k + 4]
        == (FrameOp::DrawIndexed {
        image,
        entity: entities[k].entity,
        index_count: entities[k].index_count,
    }) by {
        assert(ops[base + 5 * k + 4] == ent[5 * k + 4]);
        assert(ent[5 * k + 4] == entity_ops(entities[k], image)[4]);
    }
    assert forall|k: int| 0 <= k < entities.len() implies ops[base + 5 * k]
        == (FrameOp::BindVertexBuffer { image, entity: entities[k].entity }) && ops[base + 5 * k
        + 1] == (FrameOp::BindIndexBuffer { image, entity: entities[k].entity }) && ops[base + 5
        * k + 2] == (FrameOp::BindDescriptorSet { image, entity: entities[k].entity }) && ops[base
        + 5 * k + 3] == (FrameOp::PushModelMatrix { image, entity: entities[k].entity }) by {
        assert(ops[base + 5 * k] == ent[5 * k]);
        assert(ent[5 * k] == entity_ops(entities[k], image)[0]);
        assert(ops[base + 5 * k + 1] == ent[5 * k + 1]);
        assert(ent[5 * k + 1] == entity_ops(entities[k], image)[1]);
        assert(ops[base + 5 * k + 2] == ent[5 * k + 2]);
        assert(ent[5 * k + 2] == entity_ops(entities[k], image)[2]);
        assert(ops[base + 5 * k + 3] == ent[5 * k + 3]);
        assert(ent[5 * k + 3] == entity_ops(entities[k], image)[3]);
    }
    assert forall|j: int| 0 <= j < ops.len() implies ((#[trigger] ops[j]) is DrawIndexed <==> (base
        <= j < base + 5 * entities.len() && (j - base) % 5 == 4)) by {
        if base <= j < base + 5 * entities.len() {
            let d = j - base;
            lemma_fundamental_div_mod(d, 5);
            lemma_mod_bound(d, 5);
            let k = d / 5;
            let r = d % 5;
            assert(d == 5 * k + r);
            assert(0 <= k < entities.len()) by (nonlinear_arith)
                requires
                    d == 5 * k + r,
                    0 <= r < 5,
                    0 <= d < 5 * entities.len(),
            ;
            assert(ops[j] == ent[d]);
            assert(ent[5 * k + r] == entity_ops(entities[k], image)[r]);
            if r == 0 {
            } else if r == 1 {
            } else if r == 2 {
            } else if r == 3 {
            } else {
                assert(r == 4);
            }
        }
    }
}

} // verus!
