use wosim::render::{
    cull_group_count, pyramid_stages, PyramidSource, PyramidStage, RenderSchedule,
    CULL_GROUP_SIZE, FRAMES_IN_FLIGHT,
};
use wosim::render::{Context, Frame};
use wosim::vulkan::descriptor::{DescriptorPoolSetup, SceneFrame, MAX_MIP_LEVELS};

#[test]
fn frames_in_flight_alternate() {
    let mut schedule = RenderSchedule::new();
    assert!(schedule.needs_setup());
    schedule.setup_done();
    assert!(!schedule.needs_setup());
    assert_eq!(schedule.next_frame(), 0);
    assert_eq!(schedule.next_frame(), 1);
    assert_eq!(schedule.next_frame(), 0);
    assert_eq!(schedule.frame_count, 3);
    assert_eq!(FRAMES_IN_FLIGHT, 2);
}

#[test]
fn recreated_view_is_set_up_again() {
    let mut schedule = RenderSchedule::new();
    schedule.setup_done();
    schedule.next_frame();
    schedule.recreate_view();
    assert_eq!(schedule.frame_count, 1);
    assert!(schedule.needs_setup());
    schedule.setup_done();
    assert_eq!(schedule.next_frame(), 1);
    assert!(!schedule.needs_setup());
}

#[test]
fn failed_setup_is_retried() {
    let mut schedule = RenderSchedule::new();
    assert!(schedule.needs_setup());
    assert!(schedule.needs_setup());
    assert_eq!(schedule.frame_count, 0);
}

#[test]
fn cull_groups_cover_all_objects() {
    assert_eq!(cull_group_count(0), 0);
    assert_eq!(cull_group_count(1), 1);
    assert_eq!(cull_group_count(CULL_GROUP_SIZE), 1);
    assert_eq!(cull_group_count(257), 2);
    assert_eq!(cull_group_count(1000), 4);
}

#[test]
fn pyramid_levels_chain_from_depth_image() {
    let stages = pyramid_stages(4);
    assert_eq!(stages.len(), MAX_MIP_LEVELS);
    assert_eq!(stages[0], PyramidStage { source: PyramidSource::DepthImage, destination: 0 });
    assert_eq!(stages[1], PyramidStage { source: PyramidSource::Level(0), destination: 1 });
    assert_eq!(stages[3], PyramidStage { source: PyramidSource::Level(2), destination: 3 });
    for stage in &stages[4..] {
        assert_eq!(*stage, PyramidStage { source: PyramidSource::Level(2), destination: 3 });
    }
}

#[test]
fn single_level_pyramid_reads_depth_image_only() {
    let stages = pyramid_stages(1);
    assert!(stages
        .iter()
        .all(|s| *s == PyramidStage { source: PyramidSource::DepthImage, destination: 0 }));
}

fn setup(sb: u32, ub: u32, sets: u32, cis: u32, si: u32) -> DescriptorPoolSetup {
    DescriptorPoolSetup {
        storage_buffers: sb,
        uniform_buffers: ub,
        sets,
        combined_image_samplers: cis,
        storage_images: si,
    }
}

#[test]
fn frame_pool_setup_adds_its_passes() {
    assert_eq!(SceneFrame::pool_setup(), setup(1, 1, 1, 0, 0));
    assert_eq!(Frame::pool_setup(setup(0, 0, 1, 1, 0)), setup(6, 2, 3, 2, 0));
}

#[test]
fn context_pool_covers_both_frames_in_flight() {
    assert_eq!(Context::pool_setup(), setup(0, 0, 13, 13, 13));
    assert_eq!(Context::descriptor_pool_setup(setup(0, 0, 0, 0, 0)), setup(12, 4, 17, 15, 13));
    assert_eq!(Context::descriptor_pool_setup(setup(0, 0, 1, 1, 0)), setup(12, 4, 19, 17, 13));
}
