use cubes::frame::{
    camera_config, draw_state, FrameState, InputEvent, LoopMode, CLEAR_COLOR_RGBA, WINDOW_HEIGHT,
    WINDOW_WIDTH,
};

#[test]
fn fresh_state_runs_with_no_size_and_no_cursor() {
    let s = FrameState::new();
    assert_eq!(s.mode, LoopMode::Running);
    assert_eq!((s.last_width, s.last_height), (0, 0));
    assert_eq!(s.cursor, None);
    assert!(s.is_running());
}

#[test]
fn escape_press_closes_within_the_same_iteration() {
    let mut s = FrameState::new();
    s.handle_event(InputEvent::EscapePressed);
    assert_eq!(s.mode, LoopMode::Closing);
    assert!(!s.is_running());
}

#[test]
fn close_signal_closes_within_the_same_iteration() {
    let mut s = FrameState::new();
    s.handle_event(InputEvent::CloseRequested);
    assert_eq!(s.mode, LoopMode::Closing);
    assert!(!s.is_running());
}

#[test]
fn closing_is_never_left() {
    let mut s = FrameState::new();
    s.handle_event(InputEvent::EscapePressed);
    s.handle_event(InputEvent::Other);
    s.handle_event(InputEvent::CursorMoved { x: 5, y: 6 });
    assert_eq!(s.mode, LoopMode::Closing);
    assert!(!s.is_running());
}

#[test]
fn ignored_events_keep_the_loop_running() {
    let mut s = FrameState::new();
    s.handle_event(InputEvent::Other);
    s.handle_event(InputEvent::CursorMoved { x: 1, y: 2 });
    assert_eq!(s.mode, LoopMode::Running);
    assert!(s.is_running());
}

#[test]
fn cursor_is_origin_until_a_move_is_seen() {
    let mut s = FrameState::new();
    assert_eq!(s.effective_cursor(), (0, 0));
    s.handle_event(InputEvent::CursorMoved { x: 640, y: 360 });
    assert_eq!(s.effective_cursor(), (640, 360));
    s.handle_event(InputEvent::CursorMoved { x: -3, y: 7 });
    assert_eq!(s.effective_cursor(), (-3, 7));
}

#[test]
fn first_frame_always_resizes_then_stable_size_never_does() {
    let mut s = FrameState::new();
    assert!(s.note_framebuffer_size(1280, 720));
    assert!(!s.note_framebuffer_size(1280, 720));
    assert!(!s.note_framebuffer_size(1280, 720));
}

#[test]
fn size_change_triggers_exactly_one_resize() {
    let mut s = FrameState::new();
    s.note_framebuffer_size(1280, 720);
    assert!(s.note_framebuffer_size(800, 600));
    assert!(!s.note_framebuffer_size(800, 600));
    assert_eq!((s.last_width, s.last_height), (800, 600));
}

#[test]
fn events_between_frames_do_not_disturb_resize_detection() {
    let mut s = FrameState::new();
    s.note_framebuffer_size(1280, 720);
    s.handle_event(InputEvent::CursorMoved { x: 9, y: 9 });
    s.handle_event(InputEvent::Other);
    assert!(!s.note_framebuffer_size(1280, 720));
}

#[test]
fn window_constants_match_the_demo() {
    assert_eq!((WINDOW_WIDTH, WINDOW_HEIGHT), (1280, 720));
    assert_eq!(CLEAR_COLOR_RGBA, 0x503030ff);
}

#[test]
fn draw_state_writes_color_and_depth_tests_less_culls_clockwise() {
    let s = draw_state();
    assert!(s.write_r && s.write_g && s.write_b && s.write_a);
    assert!(s.write_depth);
    assert!(s.depth_test_less);
    assert!(s.cull_clockwise);
}

#[test]
fn camera_is_static_at_minus_35_looking_at_origin() {
    let c = camera_config();
    assert_eq!((c.eye_x, c.eye_y, c.eye_z), (0, 0, -35));
    assert_eq!((c.at_x, c.at_y, c.at_z), (0, 0, 0));
    assert_eq!((c.up_x, c.up_y, c.up_z), (0, 1, 0));
    assert_eq!(c.fov_y_degrees, 60);
    assert_eq!(c.near_thousandths, 100);
    assert_eq!(c.far_thousandths, 100000);
}
