use toywatch::assets;
use toywatch::runtime::{FrameClock, Interaction, MouseState};
use toywatch::scheduler::{CompileOutcome, Scheduler, UpdateSlot};
use toywatch::toy::{BuiltinName, Channel, ChannelConfig, ChannelSource, Config, Toy};
use toywatch::watch::{make_descriptor, should_reload, ChangeKind};

#[test]
fn frame_rate_is_exact_reciprocal() {
    let mut clock = FrameClock::new();
    let t = clock.tick(16);
    assert_eq!(t.time_ms, 16);
    assert_eq!(t.delta_ms, 16);
    assert_eq!(t.frame, 1);
    assert_eq!((t.rate_num, t.rate_den), (1000, 16));
    assert_eq!(t.rate_num * t.delta_ms, 1000 * t.rate_den);

    let t = clock.tick(20);
    assert_eq!(t.time_ms, 20);
    assert_eq!(t.delta_ms, 4);
    assert_eq!(t.frame, 2);
    assert_eq!((t.rate_num, t.rate_den), (1000, 4));
}

#[test]
fn zero_delta_gets_the_sentinel_rate() {
    let mut clock = FrameClock::new();
    let _ = clock.tick(5);
    let t = clock.tick(5);
    assert_eq!(t.delta_ms, 0);
    assert_eq!((t.rate_num, t.rate_den), (0, 1));
}

#[test]
fn drag_keeps_flipped_origin() {
    let mut i = Interaction::new();
    i.button_down(100, 50, 600);
    assert_eq!(i.state, MouseState::Down { origin_x: 100, origin_y: 550 });

    i.motion(200, 300, 600);
    assert_eq!((i.mouse.x, i.mouse.y), (200, 300));
    assert_eq!((i.mouse.origin_x, i.mouse.origin_y), (100, 550));

    i.motion(5, 599, 600);
    assert_eq!((i.mouse.x, i.mouse.y), (5, 1));
    assert_eq!((i.mouse.origin_x, i.mouse.origin_y), (100, 550));

    let before = i.mouse;
    i.button_up();
    assert_eq!(i.state, MouseState::Up);
    assert_eq!(i.mouse, before);
}

#[test]
fn motion_while_up_is_ignored() {
    let mut i = Interaction::new();
    let before = i;
    i.motion(123, 45, 600);
    assert_eq!(i, before);
}

#[test]
fn metadata_touch_triggers_no_reload() {
    assert!(!should_reload(ChangeKind::Metadata, "image.glsl"));
    assert!(!should_reload(ChangeKind::Rename, "image.glsl"));
    assert!(!should_reload(ChangeKind::Other, "image.glsl"));
}

#[test]
fn only_entry_file_edits_reload() {
    assert!(should_reload(ChangeKind::DataContent, "image.glsl"));
    assert!(should_reload(ChangeKind::DataContent, "toy.glsl"));
    assert!(!should_reload(ChangeKind::DataContent, "toy.toml"));
    assert!(!should_reload(ChangeKind::DataContent, "image.glsl.bak"));
}

#[test]
fn bridge_descriptor_carries_the_read_text() {
    let t = make_descriptor("test".to_string(), Config::default());
    assert_eq!(t.main_image, "test");
    assert_eq!(t.config.channels.len(), 0);
}

#[test]
fn slot_coalesces_to_the_latest_edit() {
    let mut slot = UpdateSlot::new();
    assert!(slot.take().is_none());

    slot.publish(make_descriptor("first".to_string(), Config::default()));
    slot.publish(make_descriptor("second".to_string(), Config::default()));
    slot.publish(make_descriptor("third".to_string(), Config::default()));

    let pending = slot.take().expect("a publish leaves a pending value");
    assert_eq!(pending.main_image, "third");
    assert!(slot.take().is_none());
}

#[test]
fn failed_compile_keeps_the_pipeline() {
    let mut sched = Scheduler::new();
    assert!(sched.draw_handle().is_none());

    sched.apply_compile(Toy::default(), CompileOutcome::Success { handle: 7 });
    assert_eq!(sched.draw_handle(), Some(7));

    sched.apply_compile(make_descriptor("broken(".to_string(), Config::default()), CompileOutcome::Failure);
    assert_eq!(sched.draw_handle(), Some(7));
    assert_eq!(
        sched.active.as_ref().expect("still active").descriptor.main_image,
        toywatch::toy::shader::MAIN_IMAGE
    );
}

#[test]
fn edit_reaches_the_pipeline_within_one_poll() {
    let mut slot = UpdateSlot::new();
    let mut sched = Scheduler::new();

    sched.apply_compile(Toy::default(), CompileOutcome::Success { handle: 1 });

    slot.publish(make_descriptor("constant color".to_string(), Config::default()));
    let polled = slot.take().expect("edit is pending");
    sched.apply_compile(polled, CompileOutcome::Success { handle: 2 });

    let active = sched.active.as_ref().expect("compiled");
    assert_eq!(active.handle, 2);
    assert_eq!(active.descriptor.main_image, "constant color");
}

#[test]
fn noise_bitmap_is_deterministic() {
    let a = assets::rgba_noise_small();
    let b = assets::rgba_noise_small();
    assert_eq!(a.len(), assets::NOISE_BYTES);
    assert_eq!(a.len(), assets::NOISE_SIDE * assets::NOISE_SIDE * 4);
    assert_eq!(a, b);
    assert_eq!(a[0], (assets::NOISE_SEED % 256) as u8);
    let s1 = assets::NOISE_SEED.wrapping_mul(1664525).wrapping_add(1013904223);
    assert_eq!(a[1], (s1 % 256) as u8);
}

#[test]
fn builtin_channel_bytes_come_from_the_catalogue() {
    let ch = Channel {
        source: ChannelSource::Builtin { name: BuiltinName::RgbaNoiseSmall },
        config: ChannelConfig::from_empty(),
    };
    assert_eq!(ch.get_bytes(), assets::rgba_noise_small());
}

#[test]
fn flip_rows_reverses_row_order() {
    let data: Vec<u8> = (0u8..16).collect();
    let flipped = assets::flip_rows(&data, 2, 2);
    let expected: Vec<u8> = vec![8, 9, 10, 11, 12, 13, 14, 15, 0, 1, 2, 3, 4, 5, 6, 7];
    assert_eq!(flipped, expected);
}

#[test]
fn quad_geometry_is_the_fixed_full_screen_quad() {
    let idx = toywatch::runtime::quad_indices();
    assert_eq!(idx, vec![0, 1, 2, 0, 2, 3]);
    let verts = toywatch::runtime::quad_vertices();
    let corners: Vec<(i8, i8, u8, u8)> =
        verts.iter().map(|q| (q.pos_x, q.pos_y, q.u, q.v)).collect();
    assert_eq!(corners, vec![(-1, -1, 0, 0), (1, -1, 1, 0), (1, 1, 1, 1), (-1, 1, 0, 1)]);
}
