use gpu_image::barrier::{
    ImageBarrier, ImageCore, ImageLayout, ImageState, StageRange, SubresourceRange, ACCESS_EMPTY,
    ACCESS_SHADER_READ, ACCESS_TRANSFER_WRITE, ASPECT_COLOR, STAGE_FRAGMENT_SHADER,
    STAGE_TOP_OF_PIPE, STAGE_TRANSFER, STAGE_VERTEX_SHADER,
};
use gpu_image::image::{
    BufferImageCopy, DeviceIntRect, Image, ImageFormat, ImageKind, SubresourceLayers, TexelFormat,
    ViewKind,
};
use gpu_image::memory::{BindLocation, MemoryAllocator};

#[test]
fn bytes_per_pixel_per_format() {
    assert_eq!(ImageFormat::R8.bytes_per_pixel(), 1);
    assert_eq!(ImageFormat::R16.bytes_per_pixel(), 2);
    assert_eq!(ImageFormat::RG8.bytes_per_pixel(), 2);
    assert_eq!(ImageFormat::RG16.bytes_per_pixel(), 4);
    assert_eq!(ImageFormat::RGBA8.bytes_per_pixel(), 4);
    assert_eq!(ImageFormat::BGRA8.bytes_per_pixel(), 4);
    assert_eq!(ImageFormat::RGBAF32.bytes_per_pixel(), 16);
    assert_eq!(ImageFormat::RGBAI32.bytes_per_pixel(), 16);
}

#[test]
fn texel_format_per_format() {
    assert_eq!(ImageFormat::R8.texel_format(), TexelFormat::R8Unorm);
    assert_eq!(ImageFormat::R16.texel_format(), TexelFormat::R16Unorm);
    assert_eq!(ImageFormat::RG8.texel_format(), TexelFormat::Rg8Unorm);
    assert_eq!(ImageFormat::RG16.texel_format(), TexelFormat::Rg16Unorm);
    assert_eq!(ImageFormat::RGBA8.texel_format(), TexelFormat::Rgba8Unorm);
    assert_eq!(ImageFormat::BGRA8.texel_format(), TexelFormat::Bgra8Unorm);
    assert_eq!(ImageFormat::RGBAF32.texel_format(), TexelFormat::Rgba32Sfloat);
    assert_eq!(ImageFormat::RGBAI32.texel_format(), TexelFormat::Rgba32Sint);
}

#[test]
fn new_dedicated_builds_core_kind_and_range() {
    let image = Image::new_dedicated(ImageFormat::RGBA8, 640, 480, 3, ViewKind::D2Array, 2);
    assert_eq!(image.format, ImageFormat::RGBA8);
    assert_eq!(image.view_kind, ViewKind::D2Array);
    assert_eq!(image.kind, ImageKind { width: 640, height: 480, layers: 3, samples: 1 });
    assert_eq!(
        image.core.subresource_range,
        SubresourceRange {
            aspects: ASPECT_COLOR,
            level_start: 0,
            level_end: 2,
            layer_start: 0,
            layer_end: 3,
        }
    );
    assert_eq!(
        image.core.state,
        ImageState { access: ACCESS_EMPTY, layout: ImageLayout::Undefined }
    );
}

#[test]
fn new_binds_through_the_allocator() {
    let mut allocator = MemoryAllocator::new(256, 7);
    let (image, loc) = Image::new(
        ImageFormat::BGRA8,
        1024,
        1024,
        1,
        ViewKind::D2,
        1,
        &mut allocator,
        4 << 20,
        256,
        7,
        true,
    );
    assert_eq!(loc, BindLocation::FrameBlock { index: 0, offset: 0 });
    assert_eq!(allocator.per_frame_blocks[0].offset, 4 << 20);
    assert_eq!(image.format, ImageFormat::BGRA8);
    assert_eq!(image.kind, ImageKind { width: 1024, height: 1024, layers: 1, samples: 1 });
}

#[test]
fn staging_alignment_mask_is_max_of_pixel_and_copy_alignment() {
    let r8 = Image::new_dedicated(ImageFormat::R8, 8, 8, 1, ViewKind::D2, 1);
    assert_eq!(r8.staging_alignment_mask(), 3);
    let rgba8 = Image::new_dedicated(ImageFormat::RGBA8, 8, 8, 1, ViewKind::D2, 1);
    assert_eq!(rgba8.staging_alignment_mask(), 3);
    let rgbaf32 = Image::new_dedicated(ImageFormat::RGBAF32, 8, 8, 1, ViewKind::D2, 1);
    assert_eq!(rgbaf32.staging_alignment_mask(), 15);
}

#[test]
fn update_restores_the_previous_state() {
    // The round trip: whatever state the image held before the upload, it
    // holds again after it.
    let mut image = Image::new_dedicated(ImageFormat::RGBA8, 64, 64, 2, ViewKind::D2Array, 1);
    let range = image.core.subresource_range;
    let shader_read = ImageState {
        access: ACCESS_SHADER_READ,
        layout: ImageLayout::ShaderReadOnlyOptimal,
    };
    image.core.transit(shader_read, range);
    let before = image;
    let rect = DeviceIntRect { x: 4, y: 8, width: 16, height: 32 };
    image.update(rect, 1, 128, None);
    assert_eq!(image, before);
    assert_eq!(image.core.state, shader_read);
}

#[test]
fn update_plans_barriers_copy_and_restore() {
    let mut image = Image::new_dedicated(ImageFormat::RGBA8, 64, 64, 2, ViewKind::D2Array, 1);
    let range = image.core.subresource_range;
    let shader_read = ImageState {
        access: ACCESS_SHADER_READ,
        layout: ImageLayout::ShaderReadOnlyOptimal,
    };
    image.core.transit(shader_read, range);

    let rect = DeviceIntRect { x: 4, y: 8, width: 16, height: 32 };
    let plan = image.update(rect, 1, 128, None);

    let transfer_write = ImageState {
        access: ACCESS_TRANSFER_WRITE,
        layout: ImageLayout::TransferDstOptimal,
    };
    assert_eq!(
        plan.write_barrier,
        Some(ImageBarrier { src_state: shader_read, dst_state: transfer_write, range })
    );
    assert_eq!(
        plan.write_stages,
        StageRange { start: STAGE_VERTEX_SHADER | STAGE_FRAGMENT_SHADER, end: STAGE_TRANSFER }
    );
    assert_eq!(
        plan.copy,
        BufferImageCopy {
            buffer_offset: 128,
            buffer_width: 16,
            buffer_height: 32,
            image_layers: SubresourceLayers {
                aspects: ASPECT_COLOR,
                level: 0,
                layer_start: 1,
                layer_end: 2,
            },
            offset_x: 4,
            offset_y: 8,
            offset_z: 0,
            extent_width: 16,
            extent_height: 32,
            extent_depth: 1,
        }
    );
    assert_eq!(
        plan.restore_barrier,
        Some(ImageBarrier { src_state: transfer_write, dst_state: shader_read, range })
    );
    assert_eq!(
        plan.restore_stages,
        StageRange { start: STAGE_TRANSFER, end: STAGE_VERTEX_SHADER | STAGE_FRAGMENT_SHADER }
    );
}

#[test]
fn update_from_fresh_image_leaves_undefined_state() {
    let mut image = Image::new_dedicated(ImageFormat::R8, 16, 16, 1, ViewKind::D2, 1);
    let rect = DeviceIntRect { x: 0, y: 0, width: 16, height: 16 };
    let plan = image.update(rect, 0, 0, None);
    assert_eq!(
        image.core.state,
        ImageState { access: ACCESS_EMPTY, layout: ImageLayout::Undefined }
    );
    let barrier = plan.write_barrier.expect("fresh image must transition");
    assert_eq!(barrier.src_state.layout, ImageLayout::Undefined);
    assert_eq!(plan.write_stages, StageRange { start: STAGE_TOP_OF_PIPE, end: STAGE_TRANSFER });
    // The restore moves the image back out of transfer-write state.
    assert_eq!(
        plan.restore_stages,
        StageRange { start: STAGE_TRANSFER, end: STAGE_TOP_OF_PIPE }
    );
}

#[test]
fn update_in_transfer_write_state_needs_no_image_barrier() {
    // When the image already sits in transfer-write state, only the staging
    // buffer needs a barrier: transfer stage to transfer stage.
    let mut image = Image::new_dedicated(ImageFormat::RGBA8, 16, 16, 1, ViewKind::D2, 1);
    let range = image.core.subresource_range;
    let transfer_write = ImageState {
        access: ACCESS_TRANSFER_WRITE,
        layout: ImageLayout::TransferDstOptimal,
    };
    image.core.transit(transfer_write, range);
    let rect = DeviceIntRect { x: 0, y: 0, width: 8, height: 8 };
    let plan = image.update(rect, 0, 64, None);
    assert_eq!(plan.write_barrier, None);
    assert_eq!(plan.write_stages, StageRange { start: STAGE_TRANSFER, end: STAGE_TRANSFER });
    assert_eq!(plan.restore_barrier, None);
    assert_eq!(plan.restore_stages, StageRange { start: STAGE_TRANSFER, end: STAGE_TRANSFER });
    assert_eq!(image.core.state, transfer_write);
}

#[test]
fn update_ignores_format_override() {
    let rect = DeviceIntRect { x: 0, y: 0, width: 8, height: 8 };
    let mut with_override = Image::new_dedicated(ImageFormat::RGBA8, 16, 16, 1, ViewKind::D2, 1);
    let plan_with = with_override.update(rect, 0, 64, Some(ImageFormat::BGRA8));
    let mut without = Image::new_dedicated(ImageFormat::RGBA8, 16, 16, 1, ViewKind::D2, 1);
    let plan_without = without.update(rect, 0, 64, None);
    assert_eq!(plan_with, plan_without);
    assert_eq!(with_override, without);
}

#[test]
fn update_preserves_state_of_core_from_image() {
    let range = SubresourceRange {
        aspects: ASPECT_COLOR,
        level_start: 0,
        level_end: 1,
        layer_start: 0,
        layer_end: 1,
    };
    let core = ImageCore::from_image(range);
    assert_eq!(core.state.layout, ImageLayout::Undefined);
}
