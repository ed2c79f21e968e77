use vstd::prelude::*;

use crate::swapchain::SurfaceFormat;

verus! {

/// What a render pass does with an attachment's contents when the pass
/// begins.
#[derive(Clone, Copy, PartialEq, Eq, Structural, Debug)]
pub enum LoadOp {
    Clear,
    Load,
    DontCare,
}

/// What a render pass does with an attachment's contents when the pass ends.
#[derive(Clone, Copy, PartialEq, Eq, Structural, Debug)]
pub enum StoreOp {
    Store,
    DontCare,
}

/// The image layouts this engine's single pass moves its attachment between.
#[derive(Clone, Copy, PartialEq, Eq, Structural, Debug)]
pub enum ImageLayout {
    Undefined,
    ColorAttachmentOptimal,
    Present,
}

/// The single color attachment of the engine's render pass.
#[derive(Clone, Copy, PartialEq, Eq, Structural, Debug)]
pub struct AttachmentDesc {
    pub format: SurfaceFormat,
    pub samples: u8,
    pub load_op: LoadOp,
    pub store_op: StoreOp,
    pub stencil_load_op: LoadOp,
    pub stencil_store_op: StoreOp,
    pub initial_layout: ImageLayout,
    pub final_layout: ImageLayout,
}

/// A single-subpass render pass: one color attachment, and the subpass's one
/// reference to it. No depth/stencil, input, resolve or preserve attachments.
#[derive(Clone, Copy, PartialEq, Eq, Structural, Debug)]
pub struct RenderPassDesc {
    pub attachment: AttachmentDesc,
    pub color_ref_index: usize,
    pub color_ref_layout: ImageLayout,
}

/// The engine's one render pass for a chosen color format: one sample,
/// cleared on load, stored on store, stencil untouched, attachment moving
/// from undefined to presentable, one subpass referencing attachment zero in
/// color-optimal layout.
pub open spec fn spec_render_pass_desc(format: SurfaceFormat) -> RenderPassDesc {
    RenderPassDesc {
        attachment: AttachmentDesc {
            format,
            samples: 1,
            load_op: LoadOp::Clear,
            store_op: StoreOp::Store,
            stencil_load_op: LoadOp::DontCare,
            stencil_store_op: StoreOp::DontCare,
            initial_layout: ImageLayout::Undefined,
            final_layout: ImageLayout::Present,
        },
        color_ref_index: 0,
        color_ref_layout: ImageLayout::ColorAttachmentOptimal,
    }
}

/// Describe the render pass for the chosen color format. Built once at
/// startup; it does not depend on the swapchain, so swapchain recreations
/// reuse it verbatim.
pub fn build_render_pass_desc(format: SurfaceFormat) -> (r: RenderPassDesc)
    ensures
        r == spec_render_pass_desc(format),
{
    RenderPassDesc {
        attachment: AttachmentDesc {
            format,
            samples: 1,
            load_op: LoadOp::Clear,
            store_op: StoreOp::Store,
            stencil_load_op: LoadOp::DontCare,
            stencil_store_op: StoreOp::DontCare,
            initial_layout: ImageLayout::Undefined,
            final_layout: ImageLayout::Present,
        },
        color_ref_index: 0,
        color_ref_layout: ImageLayout::ColorAttachmentOptimal,
    }
}

} // verus!
