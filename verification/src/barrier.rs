//! The image state machine: each image's current (access, layout) pair and
//! the synthesis of the minimal pipeline barrier needed to move it to a new
//! state.
//!
//! Access and pipeline-stage masks follow the graphics API's bit encoding;
//! the caller records the returned barrier descriptor into its command
//! stream ahead of the operation that needs the new state.

use crate::memory::{BindLocation, MemoryAllocator, PER_FRAME_RENDER_TARGET_MEMORY_SIZE};
use vstd::prelude::*;

verus! {

/// No access intent.
pub const ACCESS_EMPTY: u32 = 0;

/// Read access by a transfer operation.
pub const ACCESS_TRANSFER_READ: u32 = 0x800;

/// Write access by a transfer operation.
pub const ACCESS_TRANSFER_WRITE: u32 = 0x1000;

/// Read access by a shader.
pub const ACCESS_SHADER_READ: u32 = 0x20;

/// Write access as a color attachment.
pub const ACCESS_COLOR_ATTACHMENT_WRITE: u32 = 0x100;

/// Read access as a depth/stencil attachment.
pub const ACCESS_DEPTH_STENCIL_ATTACHMENT_READ: u32 = 0x200;

/// Write access as a depth/stencil attachment.
pub const ACCESS_DEPTH_STENCIL_ATTACHMENT_WRITE: u32 = 0x400;

/// Start of the pipeline, before any work.
pub const STAGE_TOP_OF_PIPE: u32 = 0x1;

/// The vertex-shader stage.
pub const STAGE_VERTEX_SHADER: u32 = 0x8;

/// The fragment-shader stage.
pub const STAGE_FRAGMENT_SHADER: u32 = 0x80;

/// The early fragment-test (depth/stencil) stage.
pub const STAGE_EARLY_FRAGMENT_TESTS: u32 = 0x100;

/// The late fragment-test (depth/stencil) stage.
pub const STAGE_LATE_FRAGMENT_TESTS: u32 = 0x200;

/// The color-attachment output stage.
pub const STAGE_COLOR_ATTACHMENT_OUTPUT: u32 = 0x400;

/// The transfer (copy) stage.
pub const STAGE_TRANSFER: u32 = 0x1000;

/// Color aspect of an image.
pub const ASPECT_COLOR: u32 = 0x1;

/// Depth aspect of an image.
pub const ASPECT_DEPTH: u32 = 0x2;

/// Stencil aspect of an image.
pub const ASPECT_STENCIL: u32 = 0x4;

/// The GPU-internal memory arrangement an image is currently optimized for.
#[derive(Clone, Copy, Debug, PartialEq, Eq, Structural)]
pub enum ImageLayout {
    /// Contents undefined; the cheapest source for a first transition.
    Undefined,
    /// Usable for anything, optimal for nothing.
    General,
    /// Optimal for color-attachment writes.
    ColorAttachmentOptimal,
    /// Optimal for depth/stencil-attachment use.
    DepthStencilAttachmentOptimal,
    /// Optimal for sampling from a shader.
    ShaderReadOnlyOptimal,
    /// Optimal as the source of a transfer.
    TransferSrcOptimal,
    /// Optimal as the destination of a transfer.
    TransferDstOptimal,
    /// Ready for presentation to the display.
    Present,
}

/// How the GPU last used (or is about to use) an image: an access-intent
/// bitmask paired with the image layout.
#[derive(Clone, Copy, Debug, PartialEq, Eq, Structural)]
pub struct ImageState {
    /// Bitmask of `ACCESS_*` flags.
    pub access: u32,
    /// The image layout.
    pub layout: ImageLayout,
}

/// The state every image starts in: no access, undefined layout.
pub open spec fn spec_initial_state() -> ImageState {
    ImageState { access: ACCESS_EMPTY, layout: ImageLayout::Undefined }
}

/// The subresources of an image a view or barrier covers: aspects, a mip
/// range, and an array-layer range (both half-open).
#[derive(Clone, Copy, Debug, PartialEq, Eq, Structural)]
pub struct SubresourceRange {
    /// Bitmask of `ASPECT_*` flags.
    pub aspects: u32,
    /// First mip level covered.
    pub level_start: u8,
    /// One past the last mip level covered.
    pub level_end: u8,
    /// First array layer covered.
    pub layer_start: u16,
    /// One past the last array layer covered.
    pub layer_end: u16,
}

/// A pipeline-barrier descriptor for one image: the state transition it
/// orders and the subresources it covers. The caller attaches the image
/// handle when recording it.
#[derive(Clone, Copy, Debug, PartialEq, Eq, Structural)]
pub struct ImageBarrier {
    /// The state the image is leaving.
    pub src_state: ImageState,
    /// The state the image is entering.
    pub dst_state: ImageState,
    /// The subresources the barrier covers.
    pub range: SubresourceRange,
}

/// The pipeline-stage span a barrier synchronizes: work in `start` stages
/// before the barrier against work in `end` stages after it.
#[derive(Clone, Copy, Debug, PartialEq, Eq, Structural)]
pub struct StageRange {
    /// Stages whose prior work must finish (a `STAGE_*` bitmask).
    pub start: u32,
    /// Stages whose later work must wait (a `STAGE_*` bitmask).
    pub end: u32,
}

/// Whether the layout has an entry in the layout-to-stage table. A layout
/// without one signals a missing table entry, not a runtime condition.
pub open spec fn stage_supported(layout: ImageLayout) -> bool {
    layout != ImageLayout::General
}

/// The fixed layout-to-stage table: the pipeline stage in which work that
/// uses an image in this layout executes. Minimal-stall synchronization
/// depends on this table exactly; broader stages would be correct but would
/// defeat pipelining.
pub open spec fn spec_stage_for_layout(layout: ImageLayout) -> u32 {
    match layout {
        ImageLayout::Undefined => STAGE_TOP_OF_PIPE,
        ImageLayout::Present => STAGE_TRANSFER,
        ImageLayout::ColorAttachmentOptimal => STAGE_COLOR_ATTACHMENT_OUTPUT,
        ImageLayout::ShaderReadOnlyOptimal => STAGE_VERTEX_SHADER | STAGE_FRAGMENT_SHADER,
        ImageLayout::TransferSrcOptimal => STAGE_TRANSFER,
        ImageLayout::TransferDstOptimal => STAGE_TRANSFER,
        ImageLayout::DepthStencilAttachmentOptimal => STAGE_EARLY_FRAGMENT_TESTS
            | STAGE_LATE_FRAGMENT_TESTS,
        ImageLayout::General => 0,
    }
}

/// The state cell of one GPU image: the authoritative record of how the GPU
/// last used it, plus the subresource range the image's own view covers.
/// The image and view handles live with the caller.
#[derive(Clone, Copy, Debug, PartialEq, Eq, Structural)]
pub struct ImageCore {
    /// The subresources the image's view covers.
    pub subresource_range: SubresourceRange,
    /// The current (access, layout) state, as of the last recorded barrier.
    pub state: ImageState,
}

impl ImageCore {
    /// The stored layout has a stage-table entry, so any transition away
    /// from it can be synchronized.
    pub open spec fn wf(self) -> bool {
        stage_supported(self.state.layout)
    }

    /// The outcome of a transition to `new_state` covering `range`: the
    /// barrier and stage span to record, or `None` when the state already
    /// matches, and the core afterwards.
    pub open spec fn spec_transit(self, new_state: ImageState, range: SubresourceRange) -> (
        Option<(ImageBarrier, StageRange)>,
        ImageCore,
    ) {
        if new_state == self.state {
            (None, self)
        } else {
            (
                Some(
                    (
                        ImageBarrier { src_state: self.state, dst_state: new_state, range },
                        StageRange {
                            start: spec_stage_for_layout(self.state.layout),
                            end: spec_stage_for_layout(new_state.layout),
                        },
                    ),
                ),
                ImageCore { state: new_state, ..self },
            )
        }
    }

    /// Wraps a freshly created image whose view covers `subresource_range`:
    /// the state starts at (no access, undefined layout).
    pub fn from_image(subresource_range: SubresourceRange) -> (core: ImageCore)
        ensures
            core == (ImageCore { subresource_range, state: spec_initial_state() }),
            core.wf(),
    {
        ImageCore {
            subresource_range,
            state: ImageState { access: ACCESS_EMPTY, layout: ImageLayout::Undefined },
        }
    }

    /// Wraps an image whose memory comes from the pass/frame allocator: the
    /// image's reported memory requirements must match the allocator's
    /// blocks (a mismatch is an incompatible image/heap pairing, a
    /// programming error rather than a runtime condition), and the returned
    /// location tells the caller where to bind the image's memory.
    pub fn create(
        allocator: &mut MemoryAllocator,
        requirements_size: u64,
        requirements_alignment: u64,
        requirements_type_mask: u64,
        subresource_range: SubresourceRange,
        used_in_multiple_passes: bool,
    ) -> (r: (ImageCore, BindLocation))
        requires
            old(allocator).wf(),
            requirements_alignment == old(allocator).per_pass_block.alignment,
            requirements_type_mask == old(allocator).per_pass_block.type_mask,
            requirements_size + old(allocator).per_pass_block.alignment <= u64::MAX,
            PER_FRAME_RENDER_TARGET_MEMORY_SIZE + old(allocator).per_pass_block.alignment
                <= u64::MAX,
        ensures
            r.0 == (ImageCore { subresource_range, state: spec_initial_state() }),
            r.0.wf(),
            final(allocator).wf(),
            old(allocator).spec_bind_outcome(
                *final(allocator),
                requirements_size,
                used_in_multiple_passes,
                r.1,
            ),
    {
        let loc = allocator.bind_image(requirements_size, used_in_multiple_passes);
        (ImageCore::from_image(subresource_range), loc)
    }

    /// Rewinds the state to (no access, undefined layout), as for an image
    /// whose contents are about to be discarded.
    pub fn reset(&mut self)
        ensures
            *final(self) == (ImageCore {
                state: spec_initial_state(),
                ..*old(self)
            }),
            final(self).wf(),
    {
        self.state = ImageState { access: ACCESS_EMPTY, layout: ImageLayout::Undefined };
    }

    /// The source or destination pipeline stage for a barrier, derived from
    /// the layout the image is leaving or entering, per the fixed table.
    pub fn pick_stage_for_layout(layout: ImageLayout) -> (stage: u32)
        requires
            stage_supported(layout),
        ensures
            stage == spec_stage_for_layout(layout),
    {
        match layout {
            ImageLayout::Undefined => STAGE_TOP_OF_PIPE,
            ImageLayout::Present => STAGE_TRANSFER,
            ImageLayout::ColorAttachmentOptimal => STAGE_COLOR_ATTACHMENT_OUTPUT,
            ImageLayout::ShaderReadOnlyOptimal => STAGE_VERTEX_SHADER | STAGE_FRAGMENT_SHADER,
            ImageLayout::TransferSrcOptimal => STAGE_TRANSFER,
            ImageLayout::TransferDstOptimal => STAGE_TRANSFER,
            ImageLayout::DepthStencilAttachmentOptimal => STAGE_EARLY_FRAGMENT_TESTS
                | STAGE_LATE_FRAGMENT_TESTS,
            ImageLayout::General => STAGE_TOP_OF_PIPE,
        }
    }

    /// Moves the image to `new_state`. When the stored state already equals
    /// `new_state`, no barrier is needed and nothing changes; otherwise the
    /// stored state is updated and the returned barrier must be recorded
    /// ahead of the operation that uses the new state, synchronizing the
    /// stage derived from the previous layout against the stage derived
    /// from the new one.
    pub fn transit(&mut self, new_state: ImageState, range: SubresourceRange) -> (r: Option<
        (ImageBarrier, StageRange),
    >)
        requires
            old(self).wf(),
            stage_supported(new_state.layout),
        ensures
            r == old(self).spec_transit(new_state, range).0,
            *final(self) == old(self).spec_transit(new_state, range).1,
            final(self).wf(),
            final(self).subresource_range == old(self).subresource_range,
    {
        let src_state = self.state;
        if src_state == new_state {
            None
        } else {
            self.state = new_state;
            let barrier = ImageBarrier { src_state, dst_state: new_state, range };
            Some(
                (
                    barrier,
                    StageRange {
                        start: Self::pick_stage_for_layout(src_state.layout),
                        end: Self::pick_stage_for_layout(self.state.layout),
                    },
                ),
            )
        }
    }
}

/// Law: transitioning to the state the image is already in needs no barrier
/// and changes nothing.
pub proof fn lemma_transit_same_state_no_barrier(
    core: ImageCore,
    state: ImageState,
    range: SubresourceRange,
)
    requires
        core.state == state,
    ensures
        core.spec_transit(state, range).0 is None,
        core.spec_transit(state, range).1 == core,
{
}

/// Law: transitioning to a different state always updates the stored state
/// and returns a barrier carrying the old and new states, whose stage span
/// is the fixed layout-to-stage table applied to the old and new layouts.
pub proof fn lemma_transit_changed_state_barrier(
    core: ImageCore,
    new_state: ImageState,
    range: SubresourceRange,
)
    requires
        core.state != new_state,
    ensures
        core.spec_transit(new_state, range).1.state == new_state,
        core.spec_transit(new_state, range).1.subresource_range == core.subresource_range,
        core.spec_transit(new_state, range).0 == Some(
            (
                ImageBarrier { src_state: core.state, dst_state: new_state, range },
                StageRange {
                    start: spec_stage_for_layout(core.state.layout),
                    end: spec_stage_for_layout(new_state.layout),
                },
            ),
        ),
{
}

} // verus!
