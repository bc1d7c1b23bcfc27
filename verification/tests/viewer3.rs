use del_gl::event::{
    ElementState, Event, Key, Modifiers, MouseButton, MouseScrollDelta, WindowEvent,
};
use del_gl::gl;
use del_gl::gl::GlCall;
use del_gl::view_ui_state::UiState;
use del_gl::viewer3::{Response, Viewer3};

fn quiet() -> Response {
    Response {
        resize: None,
        track_cursor: false,
        zoom: false,
        rotate: false,
        translate: false,
        request_redraw: false,
        calls: Vec::new(),
    }
}

fn window(event: WindowEvent) -> Event {
    Event::Window { event }
}

fn press_left() -> Event {
    window(WindowEvent::MouseInput { state: ElementState::Pressed, button: MouseButton::Left })
}

fn modifiers(alt: bool, shift: bool) -> Event {
    window(WindowEvent::ModifiersChanged {
        modifiers: Modifiers { shift, control: false, alt, logo: false },
    })
}

#[test]
fn ui_state_starts_with_nothing_held() {
    assert_eq!(
        UiState::new(),
        UiState {
            win_width: 300,
            win_height: 300,
            is_left_btn: false,
            is_mod_alt: false,
            is_mod_shift: false,
        }
    );
}

#[test]
fn viewer3_opens_with_flags_down() {
    let v = Viewer3::open();
    assert_eq!(v.ui_state, UiState::new());
    assert!(!v.should_draw && !v.should_close);
    assert!(!v.is_left_btn_down_not_for_view_ctrl && !v.is_view_changed);
}

#[test]
fn viewer3_close_request_stays() {
    let mut v = Viewer3::open();
    assert_eq!(v.event_handle(&window(WindowEvent::CloseRequested)), quiet());
    assert!(v.should_close);
    v.event_handle(&Event::Other);
    assert!(v.should_close);
}

#[test]
fn viewer3_resize_is_recorded_even_to_nothing() {
    let mut v = Viewer3::open();
    let r = v.event_handle(&window(WindowEvent::Resized { width: 800, height: 600 }));
    assert_eq!(r, Response { resize: Some((800, 600)), ..quiet() });
    assert_eq!((v.ui_state.win_width, v.ui_state.win_height), (800, 600));
    let r = v.event_handle(&window(WindowEvent::Resized { width: 0, height: 0 }));
    assert_eq!(r.resize, Some((0, 0)));
    assert_eq!((v.ui_state.win_width, v.ui_state.win_height), (0, 0));
}

#[test]
fn viewer3_plain_press_is_for_the_program() {
    let mut v = Viewer3::open();
    assert_eq!(v.event_handle(&press_left()), quiet());
    assert!(v.ui_state.is_left_btn);
    assert!(v.is_left_btn_down_not_for_view_ctrl);
    v.event_handle(&Event::Other);
    assert!(!v.is_left_btn_down_not_for_view_ctrl);
    assert!(v.ui_state.is_left_btn);
}

#[test]
fn viewer3_press_with_modifier_is_for_the_camera() {
    let mut v = Viewer3::open();
    v.event_handle(&modifiers(true, false));
    v.event_handle(&press_left());
    assert!(v.ui_state.is_left_btn);
    assert!(!v.is_left_btn_down_not_for_view_ctrl);
}

#[test]
fn viewer3_wheel_zooms() {
    let mut v = Viewer3::open();
    let r = v.event_handle(&window(WindowEvent::MouseWheel { delta: MouseScrollDelta::LineDelta }));
    assert_eq!(r, Response { zoom: true, request_redraw: true, ..quiet() });
    assert!(!v.is_view_changed);
    let r = v.event_handle(&window(WindowEvent::MouseWheel { delta: MouseScrollDelta::PixelDelta }));
    assert_eq!(r, quiet());
}

#[test]
fn viewer3_modifiers_may_come_with_others() {
    let mut v = Viewer3::open();
    v.event_handle(&window(WindowEvent::ModifiersChanged {
        modifiers: Modifiers { shift: true, control: true, alt: true, logo: false },
    }));
    assert!(v.ui_state.is_mod_alt && v.ui_state.is_mod_shift);
}

#[test]
fn viewer3_cursor_move_always_redraws() {
    let mut v = Viewer3::open();
    let r = v.event_handle(&window(WindowEvent::CursorMoved));
    assert_eq!(r, Response { track_cursor: true, request_redraw: true, ..quiet() });
    assert!(!v.is_view_changed);
}

#[test]
fn viewer3_alt_drag_rotates() {
    let mut v = Viewer3::open();
    v.event_handle(&modifiers(true, false));
    v.event_handle(&press_left());
    let r = v.event_handle(&window(WindowEvent::CursorMoved));
    assert_eq!(r, Response { track_cursor: true, rotate: true, request_redraw: true, ..quiet() });
    assert!(v.is_view_changed);
}

#[test]
fn viewer3_shift_drag_translates() {
    let mut v = Viewer3::open();
    v.event_handle(&modifiers(false, true));
    v.event_handle(&press_left());
    let r = v.event_handle(&window(WindowEvent::CursorMoved));
    assert_eq!(r, Response { track_cursor: true, translate: true, request_redraw: true, ..quiet() });
    assert!(v.is_view_changed);
}

#[test]
fn viewer3_both_modifiers_rotate_and_translate() {
    let mut v = Viewer3::open();
    v.event_handle(&modifiers(true, true));
    v.event_handle(&press_left());
    let r = v.event_handle(&window(WindowEvent::CursorMoved));
    assert!(r.rotate && r.translate);
}

#[test]
fn viewer3_redraw_sets_up_the_frame() {
    let mut v = Viewer3::open();
    let r = v.event_handle(&window(WindowEvent::RedrawRequested));
    assert!(v.should_draw);
    assert_eq!(
        r.calls,
        vec![
            GlCall::ClearColor {
                rgba: [0.8f32.to_bits(), 0.8f32.to_bits(), 1.0f32.to_bits(), 1.0f32.to_bits()],
            },
            GlCall::Clear { mask: 0x4100 },
            GlCall::Enable { cap: gl::DEPTH_TEST },
            GlCall::DepthFunc { func: gl::LESS },
            GlCall::Enable { cap: gl::POLYGON_OFFSET_FILL },
            GlCall::PolygonOffset { factor: 1.1f32.to_bits(), units: 4.0f32.to_bits() },
        ]
    );
    assert_eq!(Response { calls: Vec::new(), ..r }, quiet());
    v.event_handle(&window(WindowEvent::CursorMoved));
    assert!(!v.should_draw);
}

#[test]
fn viewer3_ignores_other_events() {
    let mut v = Viewer3::open();
    let before = v;
    for event in [
        Event::LoopDestroyed,
        Event::Other,
        window(WindowEvent::Other),
        window(WindowEvent::KeyboardInput { key: Key::Escape }),
    ] {
        assert_eq!(v.event_handle(&event), quiet());
        assert_eq!(v, before);
    }
}
