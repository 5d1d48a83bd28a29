use wgpu_triangle::color::Color;
use wgpu_triangle::state::{
    Acquisition, ActivePipeline, DrawPass, FrameStep, HostAction, InputEvent, Key, State,
};

fn press(key: Key) -> InputEvent {
    InputEvent::Keyboard { pressed: true, key }
}

/// Whether `c` is exactly `(r, g, b, a)`, each channel a fraction `(num, den)`.
fn is_color(c: Color, r: (u128, u128), g: (u128, u128), b: (u128, u128), a: (u128, u128)) -> bool {
    c.den > 0
        && c.r * r.1 == r.0 * c.den
        && c.g * g.1 == g.0 * c.den
        && c.b * b.1 == b.0 * c.den
        && c.a * a.1 == a.0 * c.den
}

#[test]
fn fresh_state_has_default_color_and_primary_pipeline() {
    let s = State::new(800, 600);
    assert!(is_color(s.background_color(), (1, 10), (2, 10), (3, 10), (1, 1)));
    assert_eq!(s.active_pipeline(), ActivePipeline::Primary);
    assert_eq!(s.size(), (800, 600));
}

#[test]
fn solid_color_keys() {
    let mut s = State::new(800, 600);
    assert!(s.input(&press(Key::B)));
    assert_eq!(s.background_color(), Color { r: 0, g: 0, b: 1, a: 1, den: 1 });
    assert!(s.input(&press(Key::G)));
    assert_eq!(s.background_color(), Color { r: 0, g: 1, b: 0, a: 1, den: 1 });
    assert!(s.input(&press(Key::R)));
    assert_eq!(s.background_color(), Color { r: 1, g: 0, b: 0, a: 1, den: 1 });
    assert!(s.input(&InputEvent::CursorLeft));
    assert_eq!(s.background_color(), Color { r: 0, g: 0, b: 0, a: 1, den: 1 });
}

#[test]
fn solid_color_keys_are_idempotent() {
    for e in [press(Key::B), press(Key::G), press(Key::R), InputEvent::CursorLeft] {
        let mut once = State::new(640, 480);
        once.input(&e);
        let mut twice = once;
        twice.input(&e);
        assert_eq!(once, twice);
    }
}

#[test]
fn space_toggles_and_twice_restores() {
    let mut s = State::new(800, 600);
    let before = s;
    assert!(s.input(&press(Key::Space)));
    assert_eq!(s.active_pipeline(), ActivePipeline::Secondary);
    assert_eq!(s.background_color(), before.background_color());
    assert!(s.input(&press(Key::Space)));
    assert_eq!(s, before);
}

#[test]
fn pointer_gradient_exact_values() {
    let mut s = State::new(800, 600);
    assert!(s.input(&InputEvent::CursorMoved { x: 200, y: 300 }));
    assert!(is_color(s.background_color(), (1, 4), (1, 2), (5, 8), (1, 1)));
    assert!(s.input(&InputEvent::CursorMoved { x: 0, y: 0 }));
    assert!(is_color(s.background_color(), (0, 1), (0, 1), (1, 1), (1, 1)));
    assert!(s.input(&InputEvent::CursorMoved { x: 799, y: 599 }));
    assert!(is_color(s.background_color(), (799, 800), (599, 600), (7, 4800), (1, 1)));
}

#[test]
fn pointer_gradient_on_largest_surface() {
    let mut s = State::new(u32::MAX, u32::MAX);
    assert!(s.input(&InputEvent::CursorMoved { x: i64::from(u32::MAX) - 1, y: 0 }));
    let m = u128::from(u32::MAX);
    assert!(is_color(s.background_color(), (m - 1, m), (0, 1), (m + 1, 2 * m), (1, 1)));
}

#[test]
fn pointer_off_surface_keeps_color() {
    let mut s = State::new(800, 600);
    s.input(&press(Key::G));
    let before = s.background_color();
    for (x, y) in [(800, 10), (10, 600), (-1, 10), (10, -1), (i64::MAX, i64::MIN)] {
        assert!(s.input(&InputEvent::CursorMoved { x, y }));
        assert_eq!(s.background_color(), before);
    }
}

#[test]
fn other_events_are_not_consumed() {
    let mut s = State::new(800, 600);
    let before = s;
    assert!(!s.input(&press(Key::Escape)));
    assert!(!s.input(&press(Key::Other)));
    assert!(!s.input(&InputEvent::Other));
    assert!(!s.input(&InputEvent::CloseRequested));
    assert!(!s.input(&InputEvent::Resized { width: 10, height: 10 }));
    assert_eq!(s, before);
}

#[test]
fn released_and_unidentified_keys_are_consumed_without_change() {
    let mut s = State::new(800, 600);
    let before = s;
    assert!(s.input(&InputEvent::Keyboard { pressed: false, key: Key::B }));
    assert!(s.input(&InputEvent::Keyboard { pressed: false, key: Key::Space }));
    assert!(s.input(&press(Key::Unidentified)));
    assert_eq!(s, before);
}

#[test]
fn resize_with_zero_dimension_is_ignored() {
    let mut s = State::new(800, 600);
    assert!(!s.resize(0, 300));
    assert_eq!(s.size(), (800, 600));
    assert!(!s.resize(300, 0));
    assert_eq!(s.size(), (800, 600));
    assert!(!s.resize(0, 0));
    assert_eq!(s.size(), (800, 600));
}

#[test]
fn resize_stores_exact_size_and_next_frame_draws() {
    let mut s = State::new(800, 600);
    assert!(s.resize(1024, 768));
    assert_eq!(s.size(), (1024, 768));
    assert!(matches!(s.render(Acquisition::Acquired), FrameStep::Draw(_)));
    assert_eq!(
        s.render(Acquisition::Lost),
        FrameStep::Reconfigure { width: 1024, height: 768 }
    );
}

#[test]
fn first_frame_draws_one_triangle() {
    let s = State::new(800, 600);
    assert_eq!(
        s.render(Acquisition::Acquired),
        FrameStep::Draw(DrawPass {
            clear: Color { r: 1, g: 2, b: 3, a: 10, den: 10 },
            pipeline: ActivePipeline::Primary,
            vertex_count: 3,
            instance_count: 1,
        })
    );
}

#[test]
fn frame_errors_are_classified() {
    let s = State::new(800, 600);
    assert_eq!(
        s.render(Acquisition::Lost),
        FrameStep::Reconfigure { width: 800, height: 600 }
    );
    assert_eq!(s.render(Acquisition::OutOfMemory), FrameStep::Exit);
    assert_eq!(s.render(Acquisition::Outdated), FrameStep::Skip);
    assert_eq!(s.render(Acquisition::Timeout), FrameStep::Skip);
}

#[test]
fn lost_surface_with_zero_size_is_not_reconfigured() {
    let s = State::new(0, 600);
    assert_eq!(s.render(Acquisition::Lost), FrameStep::Skip);
}

#[test]
fn update_changes_nothing() {
    let mut s = State::new(800, 600);
    s.input(&press(Key::Space));
    let before = s;
    s.update();
    assert_eq!(s, before);
}

#[test]
fn host_loop_decisions() {
    let mut s = State::new(800, 600);
    assert_eq!(s.handle_window_event(&press(Key::B)), HostAction::Continue);
    assert_eq!(s.background_color(), Color { r: 0, g: 0, b: 1, a: 1, den: 1 });
    assert_eq!(
        s.handle_window_event(&InputEvent::Resized { width: 300, height: 200 }),
        HostAction::Reconfigure
    );
    assert_eq!(s.size(), (300, 200));
    assert_eq!(
        s.handle_window_event(&InputEvent::Resized { width: 0, height: 200 }),
        HostAction::Continue
    );
    assert_eq!(s.size(), (300, 200));
    assert_eq!(s.handle_window_event(&press(Key::Escape)), HostAction::Exit);
    assert_eq!(
        s.handle_window_event(&InputEvent::Keyboard { pressed: false, key: Key::Escape }),
        HostAction::Continue
    );
    assert_eq!(s.handle_window_event(&InputEvent::CloseRequested), HostAction::Exit);
    assert_eq!(s.handle_window_event(&InputEvent::Other), HostAction::Continue);
}

#[test]
fn end_to_end_scenario() {
    let mut s = State::new(800, 600);
    assert!(is_color(s.background_color(), (1, 10), (2, 10), (3, 10), (1, 1)));
    s.input(&press(Key::R));
    assert!(is_color(s.background_color(), (1, 1), (0, 1), (0, 1), (1, 1)));
    s.input(&InputEvent::CursorMoved { x: 200, y: 300 });
    assert!(is_color(s.background_color(), (25, 100), (5, 10), (625, 1000), (1, 1)));
    assert_eq!(s.active_pipeline(), ActivePipeline::Primary);
    s.input(&press(Key::Space));
    assert_eq!(s.active_pipeline(), ActivePipeline::Secondary);
    let before = s.size();
    assert!(!s.resize(0, 300));
    assert_eq!(s.size(), before);
}
