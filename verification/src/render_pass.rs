//! The render pass plan: which attachments a frame draws into and where each
//! one ends up, depending on whether multisampling is on.
//!
//! Without multisampling the pass has a color attachment that is presented
//! directly and a depth attachment. With multisampling the color attachment
//! is the offscreen multisampled target, and a third, single-sampled resolve
//! attachment receives the result and is presented.

use vstd::prelude::*;
use crate::image::{ImageFormat, ImageLayout};

verus! {

/// What happens to an attachment's contents when the pass begins.
#[derive(Clone, Copy, Debug, PartialEq, Eq, Structural)]
pub enum LoadOp {
    Clear,
    DontCare,
}

/// What happens to an attachment's contents when the pass ends.
#[derive(Clone, Copy, Debug, PartialEq, Eq, Structural)]
pub enum StoreOp {
    Store,
    DontCare,
}

/// One attachment of the render pass.
#[derive(Clone, Copy, Debug, PartialEq, Eq, Structural)]
pub struct AttachmentPlan {
    pub format: ImageFormat,
    pub samples: u32,
    pub load_op: LoadOp,
    pub store_op: StoreOp,
    pub initial_layout: ImageLayout,
    pub final_layout: ImageLayout,
}

/// The color attachment: cleared, kept, drawn at the multisample count, and
/// left ready for presentation — or, when multisampling is on, left as a
/// color attachment for the resolve step.
pub open spec fn spec_color_attachment(format: ImageFormat, sample_count: u32) -> AttachmentPlan {
    AttachmentPlan {
        format,
        samples: sample_count,
        load_op: LoadOp::Clear,
        store_op: StoreOp::Store,
        initial_layout: ImageLayout::Undefined,
        final_layout: if sample_count != 1 {
            ImageLayout::ColorAttachmentOptimal
        } else {
            ImageLayout::PresentSrc
        },
    }
}

/// The depth attachment: cleared, discarded after the pass, drawn at the
/// multisample count.
pub open spec fn spec_depth_attachment(format: ImageFormat, sample_count: u32) -> AttachmentPlan {
    AttachmentPlan {
        format,
        samples: sample_count,
        load_op: LoadOp::Clear,
        store_op: StoreOp::DontCare,
        initial_layout: ImageLayout::Undefined,
        final_layout: ImageLayout::DepthStencilAttachmentOptimal,
    }
}

/// The resolve attachment, present only when multisampling is on: single
/// sampled, kept, and left ready for presentation.
pub open spec fn spec_resolve_attachment(format: ImageFormat) -> AttachmentPlan {
    AttachmentPlan {
        format,
        samples: 1,
        load_op: LoadOp::DontCare,
        store_op: StoreOp::Store,
        initial_layout: ImageLayout::Undefined,
        final_layout: ImageLayout::PresentSrc,
    }
}

/// The attachments of the render pass, in binding order: color at zero,
/// depth at one, and with multisampling the resolve target at two. `None`
/// never occurs; the plan always has two or three attachments.
pub fn render_pass_attachments(
    color_format: ImageFormat,
    depth_format: ImageFormat,
    swapchain_format: ImageFormat,
    sample_count: u32,
) -> (r: Vec<AttachmentPlan>)
    ensures
        sample_count != 1 ==> r@ == seq![
            spec_color_attachment(color_format, sample_count),
            spec_depth_attachment(depth_format, sample_count),
            spec_resolve_attachment(swapchain_format),
        ],
        sample_count == 1 ==> r@ == seq![
            spec_color_attachment(color_format, sample_count),
            spec_depth_attachment(depth_format, sample_count),
        ],
{
    let color = AttachmentPlan {
        format: color_format,
        samples: sample_count,
        load_op: LoadOp::Clear,
        store_op: StoreOp::Store,
        initial_layout: ImageLayout::Undefined,
        final_layout: if sample_count != 1 {
            ImageLayout::ColorAttachmentOptimal
        } else {
            ImageLayout::PresentSrc
        },
    };
    let depth = AttachmentPlan {
        format: depth_format,
        samples: sample_count,
        load_op: LoadOp::Clear,
        store_op: StoreOp::DontCare,
        initial_layout: ImageLayout::Undefined,
        final_layout: ImageLayout::DepthStencilAttachmentOptimal,
    };
    let mut attachments: Vec<AttachmentPlan> = Vec::new();
    attachments.push(color);
    attachments.push(depth);
    if sample_count != 1 {
        attachments.push(
            AttachmentPlan {
                format: swapchain_format,
                samples: 1,
                load_op: LoadOp::DontCare,
                store_op: StoreOp::Store,
                initial_layout: ImageLayout::Undefined,
                final_layout: ImageLayout::PresentSrc,
            },
        );
        proof {
            assert(attachments@ =~= seq![
                spec_color_attachment(color_format, sample_count),
                spec_depth_attachment(depth_format, sample_count),
                spec_resolve_attachment(swapchain_format),
            ]);
        }
    } else {
        proof {
            assert(attachments@ =~= seq![
                spec_color_attachment(color_format, sample_count),
                spec_depth_attachment(depth_format, sample_count),
            ]);
        }
    }
    attachments
}

} // verus!
