//! Render-target lifecycle objects: a framebuffer that draws into one array
//! layer of a layered image, and a depth buffer reused across a whole frame.

use crate::barrier::{ImageCore, SubresourceRange, spec_initial_state, ASPECT_COLOR, ASPECT_DEPTH};
use crate::image::{ImageFormat, ImageKind, spec_kind_2d};
use vstd::prelude::*;

verus! {

/// The renderbuffer-object identifier that means "no renderbuffer": a
/// framebuffer with any other identifier is built against the render-pass
/// variant that carries a depth attachment.
pub const NO_RBO_ID: u32 = 0;

/// Whether a framebuffer can be built for this texture format: the formats
/// with an entry in the render-pass table. Any other format signals a
/// missing table entry, not a runtime condition.
pub open spec fn framebuffer_format_supported(format: ImageFormat) -> bool {
    ||| format == ImageFormat::R8
    ||| format == ImageFormat::BGRA8
    ||| format == ImageFormat::RGBA8
    ||| format == ImageFormat::RGBAF32
}

/// The view range a framebuffer scopes to: the color aspect of mip level
/// zero of exactly one array layer.
pub open spec fn spec_layer_view_range(layer_index: u16) -> SubresourceRange
    recommends
        layer_index < u16::MAX,
{
    SubresourceRange {
        aspects: ASPECT_COLOR,
        level_start: 0,
        level_end: 1,
        layer_start: layer_index,
        layer_end: (layer_index + 1) as u16,
    }
}

/// A render target into one array layer of a logical texture: the layer's
/// view range, the render-pass variant the framebuffer was built with, and
/// the identifiers tying it back to the texture. The device view and
/// framebuffer handles live with the caller.
#[derive(Clone, Copy, Debug, PartialEq, Eq, Structural)]
pub struct Framebuffer {
    /// The owning logical texture.
    pub texture_id: u32,
    /// The array layer this framebuffer renders into.
    pub layer_index: u16,
    /// The texture's logical pixel format.
    pub format: ImageFormat,
    /// The subresources of the texture the framebuffer's view covers.
    pub view_range: SubresourceRange,
    /// The associated renderbuffer-object identifier; `NO_RBO_ID` when none.
    pub rbo: u32,
    /// Whether the framebuffer was built against the render-pass variant
    /// with a depth attachment.
    pub uses_depth: bool,
}

impl Framebuffer {
    /// Describes the framebuffer for one array layer of `texture_id`: the
    /// view covers the color aspect of that single layer, and the
    /// render-pass variant carries a depth attachment exactly when a
    /// renderbuffer object is attached. Only formats in the render-pass
    /// table are accepted.
    pub fn new(texture_id: u32, format: ImageFormat, layer_index: u16, rbo: u32) -> (fb:
        Framebuffer)
        requires
            framebuffer_format_supported(format),
            layer_index < u16::MAX,
        ensures
            fb == (Framebuffer {
                texture_id,
                layer_index,
                format,
                view_range: spec_layer_view_range(layer_index),
                rbo,
                uses_depth: rbo != NO_RBO_ID,
            }),
    {
        let view_range = SubresourceRange {
            aspects: ASPECT_COLOR,
            level_start: 0,
            level_end: 1,
            layer_start: layer_index,
            layer_end: layer_index + 1,
        };
        Framebuffer {
            texture_id,
            layer_index,
            format,
            view_range,
            rbo,
            uses_depth: rbo != NO_RBO_ID,
        }
    }
}

/// The subresource range of a depth buffer: the depth aspect of one mip
/// level of one layer.
pub open spec fn spec_depth_range() -> SubresourceRange {
    SubresourceRange {
        aspects: ASPECT_DEPTH,
        level_start: 0,
        level_end: 1,
        layer_start: 0,
        layer_end: 1,
    }
}

/// A depth/stencil render target sized to pixel dimensions: a bare image
/// core on dedicated memory, never bound through the pass/frame allocator,
/// since depth buffers are reused across the whole frame and sized for the
/// worst case.
#[derive(Clone, Copy, Debug, PartialEq, Eq, Structural)]
pub struct DepthBuffer {
    /// The depth image's state cell and subresource range.
    pub core: ImageCore,
    /// The depth image's dimensions: single layer, single sample.
    pub kind: ImageKind,
}

impl DepthBuffer {
    /// Describes a fresh depth buffer of the given pixel size: an unlayered
    /// image covering the depth aspect, starting in the initial state, on
    /// memory the caller allocates dedicated to it.
    pub fn new(pixel_width: u32, pixel_height: u32) -> (d: DepthBuffer)
        ensures
            d.core == (ImageCore {
                subresource_range: spec_depth_range(),
                state: spec_initial_state(),
            }),
            d.core.wf(),
            d.kind == spec_kind_2d(pixel_width, pixel_height, 1),
    {
        let range = SubresourceRange {
            aspects: ASPECT_DEPTH,
            level_start: 0,
            level_end: 1,
            layer_start: 0,
            layer_end: 1,
        };
        DepthBuffer {
            core: ImageCore::from_image(range),
            kind: ImageKind { width: pixel_width, height: pixel_height, layers: 1, samples: 1 },
        }
    }
}

} // verus!
