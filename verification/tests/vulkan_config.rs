use std::cmp::Ordering;
use wosim::vulkan::descriptor::{
    CullFrame, DepthContext, DescriptorPoolSetup, SceneFrame, MAX_MIP_LEVELS,
};
use wosim::vulkan::layout::{
    cull_buffer_writes, cull_set_layout, cull_view_writes, depth_set_layout, scene_set_layout,
    set_setup, Binding, DescriptorKind,
};
use wosim::vulkan::device::{cmp_device_types, queue_family_indices, PhysicalDeviceType};

fn t(raw: i32) -> PhysicalDeviceType {
    PhysicalDeviceType { raw }
}
use wosim::vulkan::version::{api_version_1_2, queries_extended_properties, Version};

#[test]
fn version_packs_like_vulkan() {
    let v: u32 = Version { major: 1, minor: 2, patch: 3 }.into();
    assert_eq!(v, (1 << 22) | (2 << 12) | 3);
    assert_eq!(api_version_1_2(), 4202496);
    let older: u32 = Version { major: 1, minor: 1, patch: 4095 }.into();
    assert!(older < api_version_1_2());
}

#[test]
fn device_types_rank_discrete_first() {
    assert_eq!(cmp_device_types(t(2), t(1)), Ordering::Greater);
    assert_eq!(cmp_device_types(t(1), t(4)), Ordering::Greater);
    assert_eq!(cmp_device_types(t(4), t(3)), Ordering::Greater);
    assert_eq!(cmp_device_types(t(3), t(0)), Ordering::Greater);
    assert_eq!(cmp_device_types(t(0), PhysicalDeviceType { raw: 99 }), Ordering::Greater);
    assert_eq!(cmp_device_types(t(4), t(4)), Ordering::Equal);
    assert_eq!(cmp_device_types(t(0), t(2)), Ordering::Less);
}

#[test]
fn pool_setups() {
    let cull = CullFrame::pool_setup();
    assert_eq!(cull, DescriptorPoolSetup { storage_buffers: 5, uniform_buffers: 1, sets: 1, combined_image_samplers: 1, storage_images: 0 });
    let depth = DepthContext::pool_setup();
    assert_eq!(depth.sets, MAX_MIP_LEVELS as u32);
    assert_eq!(depth.storage_images, 13);
    let both = cull.plus(depth);
    assert_eq!(both.sets, 14);
    assert_eq!(cull.times(2).storage_buffers, 10);
}

#[test]
fn queue_families_list_transfer_after_main() {
    assert_eq!(queue_family_indices(3, None), vec![3]);
    assert_eq!(queue_family_indices(0, Some(2)), vec![0, 2]);
}

#[test]
fn extended_properties_need_support_or_version_1_2() {
    let v1_1: u32 = Version { major: 1, minor: 1, patch: 0 }.into();
    let v1_3: u32 = Version { major: 1, minor: 3, patch: 0 }.into();
    assert!(queries_extended_properties(true, v1_1));
    assert!(!queries_extended_properties(false, v1_1));
    assert!(queries_extended_properties(false, api_version_1_2()));
    assert!(queries_extended_properties(false, v1_3));
}

#[test]
fn pool_setups_follow_set_layouts() {
    let cull = cull_set_layout();
    assert_eq!(cull.len(), 7);
    assert_eq!(set_setup(&cull), CullFrame::pool_setup());
    assert_eq!(set_setup(&scene_set_layout()), SceneFrame::pool_setup());
    assert_eq!(set_setup(&depth_set_layout()).times(MAX_MIP_LEVELS as u32), DepthContext::pool_setup());
    let mut written = cull_buffer_writes();
    written.extend(cull_view_writes());
    for b in &cull {
        assert_eq!(written.iter().filter(|w| *w == b).count(), 1);
    }
    assert_eq!(written.len(), cull.len());
    assert_eq!(
        cull_view_writes(),
        vec![Binding { binding: 1, kind: DescriptorKind::CombinedImageSampler }]
    );
}
