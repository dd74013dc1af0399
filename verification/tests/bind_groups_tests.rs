use dips::bind_groups::{
    clone_frames, LayoutEntry, MainComputeBindGroupLayouts, MainComputeBindGroups,
    MainComputeBindGroupsContainer, PreComputeBindGroupLayouts, TextureAccess,
};

fn frame(seed: u8, len: usize) -> Vec<u8> {
    (0..len).map(|i| seed.wrapping_add(i as u8)).collect()
}

#[test]
fn main_layouts_describe_the_three_sets() {
    let layouts = MainComputeBindGroupLayouts::new(4);
    assert_eq!(
        layouts.start_texture_layout,
        LayoutEntry { binding: 0, access: TextureAccess::ReadOnly, count: None }
    );
    assert_eq!(
        layouts.temporal_textures_layout,
        LayoutEntry { binding: 0, access: TextureAccess::ReadOnly, count: Some(4) }
    );
    assert_eq!(
        layouts.output_texture_layout,
        LayoutEntry { binding: 0, access: TextureAccess::WriteOnly, count: None }
    );
}

#[test]
fn pre_layouts_describe_the_two_sets() {
    let layouts = PreComputeBindGroupLayouts::new(3);
    assert_eq!(layouts.start_textures_layout.count, Some(3));
    assert_eq!(layouts.start_textures_layout.access, TextureAccess::ReadOnly);
    assert_eq!(layouts.output_texture_layout.access, TextureAccess::WriteOnly);
}

#[test]
fn container_updates_one_slot() {
    let frames = vec![frame(0, 16), frame(1, 16), frame(2, 16)];
    let mut c = MainComputeBindGroupsContainer::new(2, 2, &frame(9, 16), &frames);
    c.update_temporal_texture(&frame(7, 16), 1);
    assert_eq!(c.temporal_textures[0], frame(0, 16));
    assert_eq!(c.temporal_textures[1], frame(7, 16));
    assert_eq!(c.temporal_textures[2], frame(2, 16));
    assert_eq!(c.start_texture, frame(9, 16));
}

#[test]
fn container_updates_all_slots_like_a_zip() {
    let frames = vec![frame(0, 16), frame(1, 16), frame(2, 16)];
    let mut c = MainComputeBindGroupsContainer::new(2, 2, &frame(9, 16), &frames);
    // Fewer inputs than slots: the trailing slot keeps its frame.
    c.update_temporal_textures(&vec![frame(5, 16), frame(6, 16)]);
    assert_eq!(c.temporal_textures[0], frame(5, 16));
    assert_eq!(c.temporal_textures[1], frame(6, 16));
    assert_eq!(c.temporal_textures[2], frame(2, 16));
}

#[test]
fn container_replaces_the_baseline() {
    let frames = vec![frame(0, 16)];
    let mut c = MainComputeBindGroupsContainer::new(2, 2, &frame(9, 16), &frames);
    c.set_start_texture(&frame(4, 16));
    assert_eq!(c.start_texture, frame(4, 16));
    assert_eq!(c.temporal_textures, frames);
}

#[test]
fn main_stage_layout_is_consumed_by_initialization() {
    let mut main = MainComputeBindGroups::new(1);
    assert!(main.pipeline_layout().is_some());
    MainComputeBindGroups::initialize(&mut main, (2, 2), (&frame(0, 16), &vec![frame(1, 16)]))
        .unwrap();
    assert!(main.pipeline_layout().is_none());
}

#[test]
fn cloned_frames_hold_the_same_bytes() {
    let frames = vec![frame(0, 8), frame(1, 8)];
    assert_eq!(clone_frames(&frames), frames);
}
