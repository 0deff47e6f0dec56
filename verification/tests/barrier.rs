use gpu_image::barrier::{
    ImageBarrier, ImageCore, ImageLayout, ImageState, StageRange, SubresourceRange, ACCESS_EMPTY,
    ACCESS_SHADER_READ, ACCESS_TRANSFER_WRITE, ASPECT_COLOR, STAGE_COLOR_ATTACHMENT_OUTPUT,
    STAGE_EARLY_FRAGMENT_TESTS, STAGE_FRAGMENT_SHADER, STAGE_LATE_FRAGMENT_TESTS,
    STAGE_TOP_OF_PIPE, STAGE_TRANSFER, STAGE_VERTEX_SHADER,
};
use gpu_image::memory::{BindLocation, MemoryAllocator};

fn color_range() -> SubresourceRange {
    SubresourceRange {
        aspects: ASPECT_COLOR,
        level_start: 0,
        level_end: 1,
        layer_start: 0,
        layer_end: 1,
    }
}

#[test]
fn from_image_starts_in_initial_state() {
    let core = ImageCore::from_image(color_range());
    assert_eq!(core.state, ImageState { access: ACCESS_EMPTY, layout: ImageLayout::Undefined });
    assert_eq!(core.subresource_range, color_range());
}

#[test]
fn pick_stage_follows_the_layout_table() {
    assert_eq!(ImageCore::pick_stage_for_layout(ImageLayout::Undefined), STAGE_TOP_OF_PIPE);
    assert_eq!(ImageCore::pick_stage_for_layout(ImageLayout::Present), STAGE_TRANSFER);
    assert_eq!(
        ImageCore::pick_stage_for_layout(ImageLayout::ColorAttachmentOptimal),
        STAGE_COLOR_ATTACHMENT_OUTPUT
    );
    assert_eq!(
        ImageCore::pick_stage_for_layout(ImageLayout::ShaderReadOnlyOptimal),
        STAGE_VERTEX_SHADER | STAGE_FRAGMENT_SHADER
    );
    assert_eq!(ImageCore::pick_stage_for_layout(ImageLayout::TransferSrcOptimal), STAGE_TRANSFER);
    assert_eq!(ImageCore::pick_stage_for_layout(ImageLayout::TransferDstOptimal), STAGE_TRANSFER);
    assert_eq!(
        ImageCore::pick_stage_for_layout(ImageLayout::DepthStencilAttachmentOptimal),
        STAGE_EARLY_FRAGMENT_TESTS | STAGE_LATE_FRAGMENT_TESTS
    );
}

#[test]
fn transit_to_same_state_needs_no_barrier() {
    let range = color_range();
    let mut core = ImageCore::from_image(range);
    let same = ImageState { access: ACCESS_EMPTY, layout: ImageLayout::Undefined };
    let before = core;
    assert_eq!(core.transit(same, range), None);
    assert_eq!(core, before);
}

#[test]
fn transit_to_new_state_returns_barrier_and_updates_state() {
    let range = color_range();
    let mut core = ImageCore::from_image(range);
    let new_state = ImageState {
        access: ACCESS_TRANSFER_WRITE,
        layout: ImageLayout::TransferDstOptimal,
    };
    let r = core.transit(new_state, range);
    let (barrier, stages) = r.expect("a state change must yield a barrier");
    assert_eq!(
        barrier,
        ImageBarrier {
            src_state: ImageState { access: ACCESS_EMPTY, layout: ImageLayout::Undefined },
            dst_state: new_state,
            range,
        }
    );
    assert_eq!(stages, StageRange { start: STAGE_TOP_OF_PIPE, end: STAGE_TRANSFER });
    assert_eq!(core.state, new_state);
    assert_eq!(core.subresource_range, range);
}

#[test]
fn transit_scenario_upload_then_sample() {
    // From (none, undefined) to (transfer-write, transfer-dst-optimal):
    // top-of-pipe to transfer. Then to (shader-read, shader-read-only):
    // transfer to vertex|fragment shader.
    let range = color_range();
    let mut core = ImageCore::from_image(range);
    let (_, stages) = core
        .transit(
            ImageState { access: ACCESS_TRANSFER_WRITE, layout: ImageLayout::TransferDstOptimal },
            range,
        )
        .expect("first transition must yield a barrier");
    assert_eq!(stages, StageRange { start: STAGE_TOP_OF_PIPE, end: STAGE_TRANSFER });
    let (barrier, stages) = core
        .transit(
            ImageState { access: ACCESS_SHADER_READ, layout: ImageLayout::ShaderReadOnlyOptimal },
            range,
        )
        .expect("second transition must yield a barrier");
    assert_eq!(
        stages,
        StageRange { start: STAGE_TRANSFER, end: STAGE_VERTEX_SHADER | STAGE_FRAGMENT_SHADER }
    );
    assert_eq!(
        barrier.src_state,
        ImageState { access: ACCESS_TRANSFER_WRITE, layout: ImageLayout::TransferDstOptimal }
    );
    assert_eq!(
        core.state,
        ImageState { access: ACCESS_SHADER_READ, layout: ImageLayout::ShaderReadOnlyOptimal }
    );
}

#[test]
fn reset_rewinds_state() {
    let range = color_range();
    let mut core = ImageCore::from_image(range);
    core.transit(
        ImageState { access: ACCESS_TRANSFER_WRITE, layout: ImageLayout::TransferDstOptimal },
        range,
    );
    core.reset();
    assert_eq!(core.state, ImageState { access: ACCESS_EMPTY, layout: ImageLayout::Undefined });
    assert_eq!(core.subresource_range, range);
}

#[test]
fn create_binds_through_the_allocator() {
    let mut allocator = MemoryAllocator::new(256, 7);
    let (core, loc) = ImageCore::create(&mut allocator, 4096, 256, 7, color_range(), false);
    assert_eq!(core.state, ImageState { access: ACCESS_EMPTY, layout: ImageLayout::Undefined });
    assert_eq!(core.subresource_range, color_range());
    assert_eq!(loc, BindLocation::PassBlock { offset: 0 });
    assert_eq!(allocator.per_pass_block.offset, 4096);
}
