//! Logical images: a state-tracked image core paired with its pixel format
//! and dimensions, and the upload path that plans a staged buffer-to-image
//! copy bracketed by the correct barriers.

use crate::barrier::{
    ImageBarrier, ImageCore, ImageState, StageRange, SubresourceRange, spec_initial_state,
    spec_stage_for_layout, stage_supported, ACCESS_TRANSFER_WRITE, ASPECT_COLOR, STAGE_TRANSFER,
    ImageLayout,
};
use crate::memory::{BindLocation, MemoryAllocator, PER_FRAME_RENDER_TARGET_MEMORY_SIZE};
use vstd::prelude::*;

verus! {

/// A buffer offset handed to a buffer-to-image copy must be a multiple of
/// four bytes: a hardware requirement of the graphics API.
pub const BUFFER_COPY_ALIGNMENT: i32 = 4;

/// The logical pixel formats an image can hold.
#[derive(Clone, Copy, Debug, PartialEq, Eq, Structural)]
pub enum ImageFormat {
    /// One 8-bit channel.
    R8,
    /// One 16-bit channel.
    R16,
    /// Two 8-bit channels.
    RG8,
    /// Two 16-bit channels.
    RG16,
    /// Four 8-bit channels, red first.
    RGBA8,
    /// Four 8-bit channels, blue first.
    BGRA8,
    /// Four 32-bit float channels.
    RGBAF32,
    /// Four 32-bit signed-integer channels.
    RGBAI32,
}

/// The device texel formats the logical pixel formats map to.
#[derive(Clone, Copy, Debug, PartialEq, Eq, Structural)]
pub enum TexelFormat {
    /// One 8-bit normalized channel.
    R8Unorm,
    /// One 16-bit normalized channel.
    R16Unorm,
    /// Two 8-bit normalized channels.
    Rg8Unorm,
    /// Two 16-bit normalized channels.
    Rg16Unorm,
    /// Four 8-bit normalized channels, red first.
    Rgba8Unorm,
    /// Four 8-bit normalized channels, blue first.
    Bgra8Unorm,
    /// Four 32-bit float channels.
    Rgba32Sfloat,
    /// Four 32-bit signed-integer channels.
    Rgba32Sint,
}

impl ImageFormat {
    /// Bytes of storage per pixel.
    pub open spec fn spec_bytes_per_pixel(self) -> int {
        match self {
            ImageFormat::R8 => 1,
            ImageFormat::R16 => 2,
            ImageFormat::RG8 => 2,
            ImageFormat::RG16 => 4,
            ImageFormat::RGBA8 => 4,
            ImageFormat::BGRA8 => 4,
            ImageFormat::RGBAF32 => 16,
            ImageFormat::RGBAI32 => 16,
        }
    }

    /// Bytes of storage per pixel.
    pub fn bytes_per_pixel(&self) -> (n: i32)
        ensures
            n == self.spec_bytes_per_pixel(),
    {
        match self {
            ImageFormat::R8 => 1,
            ImageFormat::R16 => 2,
            ImageFormat::RG8 => 2,
            ImageFormat::RG16 => 4,
            ImageFormat::RGBA8 => 4,
            ImageFormat::BGRA8 => 4,
            ImageFormat::RGBAF32 => 16,
            ImageFormat::RGBAI32 => 16,
        }
    }

    /// The device texel format this logical format is backed by.
    pub open spec fn spec_texel_format(self) -> TexelFormat {
        match self {
            ImageFormat::R8 => TexelFormat::R8Unorm,
            ImageFormat::R16 => TexelFormat::R16Unorm,
            ImageFormat::RG8 => TexelFormat::Rg8Unorm,
            ImageFormat::RG16 => TexelFormat::Rg16Unorm,
            ImageFormat::RGBA8 => TexelFormat::Rgba8Unorm,
            ImageFormat::BGRA8 => TexelFormat::Bgra8Unorm,
            ImageFormat::RGBAF32 => TexelFormat::Rgba32Sfloat,
            ImageFormat::RGBAI32 => TexelFormat::Rgba32Sint,
        }
    }

    /// The device texel format this logical format is backed by.
    pub fn texel_format(&self) -> (t: TexelFormat)
        ensures
            t == self.spec_texel_format(),
    {
        match self {
            ImageFormat::R8 => TexelFormat::R8Unorm,
            ImageFormat::R16 => TexelFormat::R16Unorm,
            ImageFormat::RG8 => TexelFormat::Rg8Unorm,
            ImageFormat::RG16 => TexelFormat::Rg16Unorm,
            ImageFormat::RGBA8 => TexelFormat::Rgba8Unorm,
            ImageFormat::BGRA8 => TexelFormat::Bgra8Unorm,
            ImageFormat::RGBAF32 => TexelFormat::Rgba32Sfloat,
            ImageFormat::RGBAI32 => TexelFormat::Rgba32Sint,
        }
    }
}

/// How an image's view interprets it.
#[derive(Clone, Copy, Debug, PartialEq, Eq, Structural)]
pub enum ViewKind {
    /// One-dimensional.
    D1,
    /// Array of one-dimensional images.
    D1Array,
    /// Two-dimensional.
    D2,
    /// Array of two-dimensional images.
    D2Array,
    /// Three-dimensional.
    D3,
    /// Cube map.
    Cube,
    /// Array of cube maps.
    CubeArray,
}

/// Dimensions of a two-dimensional, possibly layered image.
#[derive(Clone, Copy, Debug, PartialEq, Eq, Structural)]
pub struct ImageKind {
    /// Width in pixels.
    pub width: u32,
    /// Height in pixels.
    pub height: u32,
    /// Number of array layers.
    pub layers: u16,
    /// Samples per pixel.
    pub samples: u8,
}

/// An axis-aligned rectangle of device pixels.
#[derive(Clone, Copy, Debug, PartialEq, Eq, Structural)]
pub struct DeviceIntRect {
    /// Left edge.
    pub x: i32,
    /// Top edge.
    pub y: i32,
    /// Width in pixels.
    pub width: i32,
    /// Height in pixels.
    pub height: i32,
}

/// The image subresources one copy command addresses: a bitmask of
/// `ASPECT_*` flags, one mip level, and a half-open layer range.
#[derive(Clone, Copy, Debug, PartialEq, Eq, Structural)]
pub struct SubresourceLayers {
    /// Bitmask of `ASPECT_*` flags.
    pub aspects: u32,
    /// The mip level written.
    pub level: u8,
    /// First array layer written.
    pub layer_start: u16,
    /// One past the last array layer written.
    pub layer_end: u16,
}

/// A buffer-to-image copy command: where the pixel data sits in the staging
/// buffer and which image region it fills.
#[derive(Clone, Copy, Debug, PartialEq, Eq, Structural)]
pub struct BufferImageCopy {
    /// Byte offset of the pixel data within the staging buffer.
    pub buffer_offset: u64,
    /// Row length of the buffer data, in pixels.
    pub buffer_width: u32,
    /// Row count of the buffer data, in pixels.
    pub buffer_height: u32,
    /// The image subresources written.
    pub image_layers: SubresourceLayers,
    /// Destination x within the image.
    pub offset_x: i32,
    /// Destination y within the image.
    pub offset_y: i32,
    /// Destination z within the image.
    pub offset_z: i32,
    /// Width of the written region in pixels.
    pub extent_width: u32,
    /// Height of the written region in pixels.
    pub extent_height: u32,
    /// Depth of the written region in pixels.
    pub extent_depth: u32,
}

/// Everything the caller must record for one image upload, in order: a
/// pipeline barrier before the copy, the copy itself, and a barrier after
/// it restoring the image's prior state.
#[derive(Clone, Copy, Debug, PartialEq, Eq, Structural)]
pub struct UpdatePlan {
    /// The barrier moving the image into transfer-write state; `None` when
    /// the image is already there. The staging buffer's own transition
    /// joins the same pipeline barrier either way.
    pub write_barrier: Option<ImageBarrier>,
    /// Stage span of the pre-copy pipeline barrier: from the stage of the
    /// image's prior layout to the transfer stage.
    pub write_stages: StageRange,
    /// The buffer-to-image copy to record, addressing exactly one array
    /// layer at the requested rectangle.
    pub copy: BufferImageCopy,
    /// The barrier restoring the image to its prior state, so later
    /// consumers see it in its expected steady state; `None` when the
    /// prior state already was transfer-write.
    pub restore_barrier: Option<ImageBarrier>,
    /// Stage span of the post-copy barrier: from the transfer stage to the
    /// stage of the restored layout.
    pub restore_stages: StageRange,
}

/// The state an image is put in while a transfer writes to it.
pub open spec fn spec_transfer_write_state() -> ImageState {
    ImageState { access: ACCESS_TRANSFER_WRITE, layout: ImageLayout::TransferDstOptimal }
}

/// A state-tracked image core together with its logical pixel format and
/// dimensions. The device image and view handles live with the caller.
#[derive(Clone, Copy, Debug, PartialEq, Eq, Structural)]
pub struct Image {
    /// The image's state cell and subresource range.
    pub core: ImageCore,
    /// The image's dimensions.
    pub kind: ImageKind,
    /// How the image's view interprets it.
    pub view_kind: ViewKind,
    /// The logical pixel format.
    pub format: ImageFormat,
}

impl Image {
    /// Creates an image bound through the pass/frame allocator: a
    /// two-dimensional image of `image_depth` layers whose view covers the
    /// color aspect of every mip level and layer. The image's reported
    /// memory requirements must match the allocator's blocks; the returned
    /// location says where the caller binds the image's memory.
    pub fn new(
        image_format: ImageFormat,
        image_width: i32,
        image_height: i32,
        image_depth: i32,
        view_kind: ViewKind,
        mip_levels: u8,
        allocator: &mut MemoryAllocator,
        requirements_size: u64,
        requirements_alignment: u64,
        requirements_type_mask: u64,
        used_in_multiple_passes: bool,
    ) -> (r: (Image, BindLocation))
        requires
            0 <= image_width,
            0 <= image_height,
            0 <= image_depth <= u16::MAX,
            old(allocator).wf(),
            requirements_alignment == old(allocator).per_pass_block.alignment,
            requirements_type_mask == old(allocator).per_pass_block.type_mask,
            requirements_size + old(allocator).per_pass_block.alignment <= u64::MAX,
            PER_FRAME_RENDER_TARGET_MEMORY_SIZE + old(allocator).per_pass_block.alignment
                <= u64::MAX,
        ensures
            r.0 == (Image {
                core: ImageCore {
                    subresource_range: spec_color_range(mip_levels, image_depth as u16),
                    state: spec_initial_state(),
                },
                kind: spec_kind_2d(image_width as u32, image_height as u32, image_depth as u16),
                view_kind,
                format: image_format,
            }),
            r.0.core.wf(),
            final(allocator).wf(),
            old(allocator).spec_bind_outcome(
                *final(allocator),
                requirements_size,
                used_in_multiple_passes,
                r.1,
            ),
    {
        let range = SubresourceRange {
            aspects: ASPECT_COLOR,
            level_start: 0,
            level_end: mip_levels,
            layer_start: 0,
            layer_end: image_depth as u16,
        };
        let (core, loc) = ImageCore::create(
            allocator,
            requirements_size,
            requirements_alignment,
            requirements_type_mask,
            range,
            used_in_multiple_passes,
        );
        let kind = ImageKind {
            width: image_width as u32,
            height: image_height as u32,
            layers: image_depth as u16,
            samples: 1,
        };
        (Image { core, kind, view_kind, format: image_format }, loc)
    }

    /// Creates an image backed by its own dedicated memory allocation
    /// instead of the pass/frame allocator; the caller allocates and binds
    /// that memory itself.
    pub fn new_dedicated(
        image_format: ImageFormat,
        image_width: i32,
        image_height: i32,
        image_depth: i32,
        view_kind: ViewKind,
        mip_levels: u8,
    ) -> (image: Image)
        requires
            0 <= image_width,
            0 <= image_height,
            0 <= image_depth <= u16::MAX,
        ensures
            image == (Image {
                core: ImageCore {
                    subresource_range: spec_color_range(mip_levels, image_depth as u16),
                    state: spec_initial_state(),
                },
                kind: spec_kind_2d(image_width as u32, image_height as u32, image_depth as u16),
                view_kind,
                format: image_format,
            }),
            image.core.wf(),
    {
        let range = SubresourceRange {
            aspects: ASPECT_COLOR,
            level_start: 0,
            level_end: mip_levels,
            layer_start: 0,
            layer_end: image_depth as u16,
        };
        let core = ImageCore::from_image(range);
        let kind = ImageKind {
            width: image_width as u32,
            height: image_height as u32,
            layers: image_depth as u16,
            samples: 1,
        };
        Image { core, kind, view_kind, format: image_format }
    }

    /// The alignment mask pixel data must be staged with before an
    /// `update`: one less than the larger of the format's bytes per pixel
    /// and the four-byte alignment the graphics API requires of
    /// buffer-to-image copy offsets.
    pub fn staging_alignment_mask(&self) -> (mask: usize)
        ensures
            mask == if self.format.spec_bytes_per_pixel() >= BUFFER_COPY_ALIGNMENT as int {
                self.format.spec_bytes_per_pixel() - 1
            } else {
                BUFFER_COPY_ALIGNMENT - 1
            },
    {
        let bpp = self.format.bytes_per_pixel();
        let aligned = if bpp >= BUFFER_COPY_ALIGNMENT {
            bpp
        } else {
            BUFFER_COPY_ALIGNMENT
        };
        (aligned as usize) - 1
    }

    /// Plans the upload of pixel data, already staged at `buffer_offset` in
    /// the staging buffer, into one array layer of the image at `rect`. The
    /// image is moved into transfer-write state for the copy and then
    /// restored to the state it held before the call, so the image's state
    /// is unchanged overall. A format override is accepted but has no
    /// effect. The caller records the plan's barriers and copy, in order,
    /// into its command stream.
    pub fn update(
        &mut self,
        rect: DeviceIntRect,
        layer_index: i32,
        buffer_offset: u64,
        format_override: Option<ImageFormat>,
    ) -> (plan: UpdatePlan)
        requires
            old(self).core.wf(),
            0 <= rect.width,
            0 <= rect.height,
            0 <= layer_index < u16::MAX,
        ensures
            *final(self) == *old(self),
            plan.write_barrier == if old(self).core.state == spec_transfer_write_state() {
                None::<ImageBarrier>
            } else {
                Some(
                    ImageBarrier {
                        src_state: old(self).core.state,
                        dst_state: spec_transfer_write_state(),
                        range: old(self).core.subresource_range,
                    },
                )
            },
            plan.write_stages == (StageRange {
                start: spec_stage_for_layout(old(self).core.state.layout),
                end: STAGE_TRANSFER,
            }),
            plan.copy == spec_layer_copy(rect, layer_index as u16, buffer_offset),
            plan.restore_barrier == if old(self).core.state == spec_transfer_write_state() {
                None::<ImageBarrier>
            } else {
                Some(
                    ImageBarrier {
                        src_state: spec_transfer_write_state(),
                        dst_state: old(self).core.state,
                        range: old(self).core.subresource_range,
                    },
                )
            },
            plan.restore_stages == (StageRange {
                start: STAGE_TRANSFER,
                end: spec_stage_for_layout(old(self).core.state.layout),
            }),
    {
        let prev_state = self.core.state;
        let range = self.core.subresource_range;
        let transfer_state = ImageState {
            access: ACCESS_TRANSFER_WRITE,
            layout: ImageLayout::TransferDstOptimal,
        };

        let write = self.core.transit(transfer_state, range);
        let (write_barrier, write_stages) = match write {
            Some((barrier, stages)) => (Some(barrier), stages),
            None => (None, StageRange { start: STAGE_TRANSFER, end: STAGE_TRANSFER }),
        };

        let copy = BufferImageCopy {
            buffer_offset,
            buffer_width: rect.width as u32,
            buffer_height: rect.height as u32,
            image_layers: SubresourceLayers {
                aspects: ASPECT_COLOR,
                level: 0,
                layer_start: layer_index as u16,
                layer_end: (layer_index + 1) as u16,
            },
            offset_x: rect.x,
            offset_y: rect.y,
            offset_z: 0,
            extent_width: rect.width as u32,
            extent_height: rect.height as u32,
            extent_depth: 1,
        };

        let restore = self.core.transit(prev_state, range);
        let (restore_barrier, restore_stages) = match restore {
            Some((barrier, stages)) => (Some(barrier), stages),
            None => (None, StageRange { start: STAGE_TRANSFER, end: STAGE_TRANSFER }),
        };

        UpdatePlan { write_barrier, write_stages, copy, restore_barrier, restore_stages }
    }
}

/// A view range covering the color aspect of the first `mip_levels` mip
/// levels and the first `layers` array layers.
pub open spec fn spec_color_range(mip_levels: u8, layers: u16) -> SubresourceRange {
    SubresourceRange {
        aspects: ASPECT_COLOR,
        level_start: 0,
        level_end: mip_levels,
        layer_start: 0,
        layer_end: layers,
    }
}

/// Dimensions of a single-sampled two-dimensional image.
pub open spec fn spec_kind_2d(width: u32, height: u32, layers: u16) -> ImageKind {
    ImageKind { width, height, layers, samples: 1 }
}

/// The copy command an `update` records: the staged data at `buffer_offset`
/// fills `rect` of the color aspect of array layer `layer_index`, at mip
/// level zero.
pub open spec fn spec_layer_copy(rect: DeviceIntRect, layer_index: u16, buffer_offset: u64) -> BufferImageCopy
    recommends
        rect.width >= 0,
        rect.height >= 0,
        layer_index < u16::MAX,
{
    BufferImageCopy {
        buffer_offset,
        buffer_width: rect.width as u32,
        buffer_height: rect.height as u32,
        image_layers: SubresourceLayers {
            aspects: ASPECT_COLOR,
            level: 0,
            layer_start: layer_index,
            layer_end: (layer_index + 1) as u16,
        },
        offset_x: rect.x,
        offset_y: rect.y,
        offset_z: 0,
        extent_width: rect.width as u32,
        extent_height: rect.height as u32,
        extent_depth: 1,
    }
}

} // verus!
