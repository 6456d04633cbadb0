use pixel_engine::clock::FrameScheduler;
use pixel_engine::engine::{pixel_buffer_len, EngineCore, WindowEvent};
use pixel_engine::fixed::FRAC_ONE;
use pixel_engine::input::{InputId, InputState};
use pixel_engine::key::Key;
use pixel_engine::mapper::{calculate_dimensions_and_bounding_box, get_window_size, map_axis};
use pixel_engine::{EngineBuilder, Icon, MouseButton, StrError};

#[test]
fn input_press_then_decays() {
    let mut input = InputState::new();
    let id = InputId::Key(Key::A);
    input.press(id);
    assert!(input.is_just_pressed(id));
    assert!(input.is_pressed(id));
    assert!(!input.is_just_released(id));
    // after exactly one decay, no longer "just" pressed but still pressed
    input.decay();
    assert!(!input.is_just_pressed(id));
    assert!(input.is_pressed(id));
    for _ in 0..5 {
        input.decay();
        assert!(!input.is_just_pressed(id));
        assert!(input.is_pressed(id));
    }
    // release is an edge for one tick, then the entry disappears
    input.release(id);
    assert!(input.is_just_released(id));
    assert!(!input.is_pressed(id));
    input.decay();
    assert!(!input.is_just_released(id));
    assert!(!input.is_pressed(id));
    assert!(!input.is_just_pressed(id));
}

#[test]
fn input_release_without_press_is_accepted() {
    let mut input = InputState::new();
    let id = InputId::Mouse(MouseButton::Left);
    input.release(id);
    assert!(input.is_just_released(id));
    assert!(!input.is_pressed(id));
    input.decay();
    assert!(!input.is_just_released(id));
}

#[test]
fn input_repress_same_key_overwrites() {
    let mut input = InputState::new();
    let id = InputId::Key(Key::Space);
    input.press(id);
    input.decay();
    input.press(id);
    assert!(input.is_just_pressed(id));
}

#[test]
fn scheduler_clock_jump_runs_exact_ticks() {
    // the clock jumps forward by 5.5 periods in one poll: exactly 5 ticks
    // run, one render follows, and the deadline lands on the grid, not on
    // "now"
    let period = 1000u64;
    let mut sched = FrameScheduler::new(0, period);
    assert_eq!(sched.next_due, 1000);
    let now = 1000 + 4500;  // 5.5 periods past the start
    let ticks = sched.begin_frame(now);
    assert_eq!(ticks, 5);
    assert!(sched.should_render(ticks));
    assert_eq!(sched.next_due, 1000 + 5 * period);
    assert_eq!(sched.tick_index, 5);
}

#[test]
fn scheduler_idle_frame_runs_no_ticks() {
    let mut sched = FrameScheduler::new(0, 1000);
    let ticks = sched.begin_frame(500);
    assert_eq!(ticks, 0);
    assert!(!sched.should_render(ticks));
    assert_eq!(sched.sleep_nanos(500), 500);
    assert_eq!(sched.next_due, 1000);
    assert_eq!(sched.current_tick(), 0);
}

#[test]
fn scheduler_exact_deadline_runs_one_tick() {
    let mut sched = FrameScheduler::new(0, 1000);
    let ticks = sched.begin_frame(1000);
    assert_eq!(ticks, 1);
    assert_eq!(sched.next_due, 2000);
    assert_eq!(sched.sleep_nanos(1000), 1000);
}

#[test]
fn scheduler_counts_ticks_across_frames() {
    let mut sched = FrameScheduler::new(0, 100);
    assert_eq!(sched.begin_frame(100), 1);
    assert_eq!(sched.begin_frame(450), 3);
    assert_eq!(sched.begin_frame(451), 0);
    assert_eq!(sched.tick_index, 4);
    assert_eq!(sched.next_due, 500);
}

#[test]
fn fixed_mode_box_letterboxes_with_margin() {
    let ((w, h), bb) = calculate_dimensions_and_bounding_box(100, 100, 1000, 1000, false);
    assert_eq!((w, h), (100, 100));
    // one-tenth margin on a square window: radii of 4/5 on both axes
    assert_eq!((bb.num_x, bb.den_x), (4000, 5000));
    assert_eq!((bb.num_y, bb.den_y), (400000, 500000));
}

#[test]
fn adaptive_mode_recomputes_dimensions() {
    // a 2:1 target in a square window: pixels keep at least half the
    // window-filling size and the logical area grows to cover the window
    let ((w, h), bb) = calculate_dimensions_and_bounding_box(100, 50, 1000, 1000, true);
    assert_eq!((w, h), (100, 100));
    assert_eq!((bb.num_x, bb.den_x), (100000, 100000));
    assert_eq!((bb.num_y, bb.den_y), (100000, 100000));
}

#[test]
fn pointer_center_maps_to_logical_center() {
    // the window center maps to the logical center in both modes
    let (_, bb) = calculate_dimensions_and_bounding_box(100, 100, 1000, 1000, false);
    let x = map_axis(bb.num_x, bb.den_x, 1000, 100, 500);
    assert_eq!(x, 50 * FRAC_ONE);
    let (_, abb) = calculate_dimensions_and_bounding_box(100, 50, 1000, 1000, true);
    let y = map_axis(abb.num_y, abb.den_y, 1000, 100, 500);
    assert_eq!(y, 50 * FRAC_ONE);
}

#[test]
fn pointer_center_of_odd_window_maps_within_one_unit() {
    // an odd window has no exact center pixel; the pixel just below it
    // maps to within one logical unit below the logical center
    let (_, bb) = calculate_dimensions_and_bounding_box(100, 100, 999, 999, false);
    let x = map_axis(bb.num_x, bb.den_x, 999, 100, 999 / 2);
    assert!(x <= 50 * FRAC_ONE);
    assert!(x >= 49 * FRAC_ONE);
}

#[test]
fn pointer_outside_box_maps_outside_logical_area() {
    let (_, bb) = calculate_dimensions_and_bounding_box(100, 100, 1000, 1000, false);
    // the letterbox margin spans the outer tenth of the window
    let left = map_axis(bb.num_x, bb.den_x, 1000, 100, 0);
    assert!(left < 0);
    let right = map_axis(bb.num_x, bb.den_x, 1000, 100, 1000);
    assert!(right >= 100 * FRAC_ONE);
}

#[test]
fn window_size_leaves_monitor_margin() {
    assert_eq!(get_window_size(100, 100, 1000, 1000), (600, 600));
}

#[test]
fn pixel_buffer_is_three_bytes_per_pixel() {
    assert_eq!(pixel_buffer_len(100, 50), 15000);
    assert_eq!(pixel_buffer_len(1, 1), 3);
}

#[test]
fn engine_core_resize_and_pointer() {
    let (dims, bb) = calculate_dimensions_and_bounding_box(100, 100, 1000, 1000, false);
    let mut core = EngineCore::new(dims.0, dims.1, 1000, 1000, bb);
    core.handle_event(WindowEvent::MousePos { x: 500, y: 500 });
    assert_eq!(core.mouse_x, 50 * FRAC_ONE);
    assert_eq!(core.mouse_y, 50 * FRAC_ONE);
    let (dims2, bb2) = calculate_dimensions_and_bounding_box(100, 100, 2000, 1000, false);
    core.handle_event(WindowEvent::WindowResize {
        width: dims2.0,
        height: dims2.1,
        window_width: 2000,
        window_height: 1000,
        new_bounding_box: bb2,
    });
    assert_eq!(core.window_width, 2000);
    assert_eq!(core.width, 100);
}

#[test]
fn engine_core_tick_cycle() {
    let (dims, bb) = calculate_dimensions_and_bounding_box(100, 100, 1000, 1000, false);
    let mut core = EngineCore::new(dims.0, dims.1, 1000, 1000, bb);
    core.handle_event(WindowEvent::Key { key: Key::Z, pressed: true });
    core.handle_event(WindowEvent::MouseEnter { entered: true });
    let ctx = core.make_context();
    assert_eq!(ctx.current_frame(), 0);
    assert!(ctx.is_key_pressed(Key::Z));
    assert!(ctx.is_key_just_pressed(Key::Z));
    assert!(ctx.is_mouse_in_window());
    let cont = core.end_tick(ctx.will_exit());
    assert!(cont);
    let ctx2 = core.make_context();
    assert_eq!(ctx2.current_frame(), 1);
    assert!(ctx2.is_key_pressed(Key::Z));
    assert!(!ctx2.is_key_just_pressed(Key::Z));
}

#[test]
fn engine_core_close_request_exits() {
    let (dims, bb) = calculate_dimensions_and_bounding_box(100, 100, 1000, 1000, false);
    let mut core = EngineCore::new(dims.0, dims.1, 1000, 1000, bb);
    core.handle_event(WindowEvent::WindowClose);
    let mut ctx = core.make_context();
    assert!(ctx.will_exit());
    // the callback may veto the close
    ctx.prevent_exit();
    assert!(!ctx.will_exit());
    let cont = core.end_tick(ctx.will_exit());
    assert!(cont);
    // or request an exit itself
    let mut ctx2 = core.make_context();
    ctx2.exit();
    assert!(!core.end_tick(ctx2.will_exit()));
    assert!(core.will_exit);
}

#[test]
fn context_pointer_queries() {
    let (dims, bb) = calculate_dimensions_and_bounding_box(100, 100, 1000, 1000, false);
    let mut core = EngineCore::new(dims.0, dims.1, 1000, 1000, bb);
    core.handle_event(WindowEvent::MouseEnter { entered: true });
    core.handle_event(WindowEvent::MousePos { x: 500, y: 500 });
    let ctx = core.make_context();
    assert_eq!(ctx.integer_mouse_pos(), (50, 50));
    assert_eq!(ctx.mouse_pos(), (50 * FRAC_ONE, 50 * FRAC_ONE));
    assert!(ctx.is_mouse_in_game_area());
    // pointer in the letterbox margin: inside the window, outside the area
    core.handle_event(WindowEvent::MousePos { x: 10, y: 500 });
    let ctx2 = core.make_context();
    assert!(ctx2.is_mouse_in_window());
    assert!(!ctx2.is_mouse_in_game_area());
    core.handle_event(WindowEvent::MouseEnter { entered: false });
    assert!(!core.make_context().is_mouse_in_game_area());
}

#[test]
fn sub_pixel_margin_is_outside_game_area() {
    // the logical area spans window pixels [100, 900); one physical pixel
    // to its left maps to a fraction of a logical pixel below zero, which
    // truncates to pixel 0 but must still read as outside
    let (dims, bb) = calculate_dimensions_and_bounding_box(100, 100, 1000, 1000, false);
    let mut core = EngineCore::new(dims.0, dims.1, 1000, 1000, bb);
    core.handle_event(WindowEvent::MouseEnter { entered: true });
    core.handle_event(WindowEvent::MousePos { x: 99, y: 500 });
    let ctx = core.make_context();
    assert_eq!(ctx.mouse_x(), -FRAC_ONE / 8);
    assert_eq!(ctx.integer_mouse_pos().0, 0);
    assert!(!ctx.is_mouse_in_game_area());
    // the area's own lower corner is a valid boundary coordinate
    core.handle_event(WindowEvent::MousePos { x: 100, y: 500 });
    let ctx2 = core.make_context();
    assert_eq!(ctx2.mouse_x(), 0);
    assert!(ctx2.is_mouse_in_game_area());
    // one past the far edge is outside again
    core.handle_event(WindowEvent::MousePos { x: 900, y: 500 });
    assert!(!core.make_context().is_mouse_in_game_area());
}

#[test]
fn context_mouse_buttons() {
    let (dims, bb) = calculate_dimensions_and_bounding_box(100, 100, 1000, 1000, false);
    let mut core = EngineCore::new(dims.0, dims.1, 1000, 1000, bb);
    core.handle_event(WindowEvent::MouseButton { button: MouseButton::Left, pressed: true });
    let ctx = core.make_context();
    assert!(ctx.is_mouse_button_pressed(MouseButton::Left));
    assert!(ctx.is_mouse_button_just_pressed(MouseButton::Left));
    assert!(!ctx.is_mouse_button_pressed(MouseButton::Right));
    core.end_tick(false);
    core.handle_event(WindowEvent::MouseButton { button: MouseButton::Left, pressed: false });
    let ctx2 = core.make_context();
    assert!(ctx2.is_mouse_button_just_released(MouseButton::Left));
    assert!(!ctx2.is_mouse_button_pressed(MouseButton::Left));
}

#[test]
fn builder_collects_configuration() {
    let b = EngineBuilder::with_dimensions(320, 240);
    assert_eq!(b.target_width(), 320);
    assert_eq!(b.target_height(), 240);
    assert!(!b.is_fullscreen());
    assert_eq!(b.title_str(), "Game");
    let b = b.dimensions(640, 480).title("demo".to_owned());
    assert_eq!(b.target_width(), 640);
    assert_eq!(b.title_str(), "demo");
    let f = EngineBuilder::fullscreen(160, 120);
    assert!(f.is_fullscreen());
    assert_eq!(f.target_width(), 160);
}

#[test]
fn builder_carries_icon() {
    let icon = Icon::new(2, 2, vec![0u8; 16]);
    let b = EngineBuilder::with_dimensions(10, 10).icon(icon);
    let icon = b.take_icon().expect("icon was set");
    assert_eq!(icon.width(), 2);
    assert_eq!(icon.height(), 2);
    assert_eq!(icon.rgba().len(), 16);
}

#[test]
fn str_error_keeps_message() {
    let e = StrError::new("no supported configs available");
    assert_eq!(e.message(), "no supported configs available");
}
