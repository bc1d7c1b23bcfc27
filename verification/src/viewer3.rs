//! A viewer with three-dimensional navigation that is driven event by event.
//!
//! The caller owns the window, the context and the camera. It hands each
//! event of the loop to `Viewer3::event_handle`, carries out the answer, and
//! reads from the viewer's flags what is left for it to do.

use vstd::prelude::*;
use crate::event::{ElementState, Event, MouseButton, MouseScrollDelta, WindowEvent};
use crate::gl;
use crate::gl::GlCall;
use crate::view_ui_state::UiState;
use crate::words;

verus! {

/// The answer to one event of the loop, in the order in which the caller
/// carries it out.
#[derive(Debug, PartialEq, Eq)]
pub struct Response {
    /// The context takes this size.
    pub resize: Option<(u32, u32)>,
    /// The cursor has a new position, to be recorded first.
    pub track_cursor: bool,
    /// The camera's scale is multiplied by 1.01 to the power of the lines
    /// scrolled.
    pub zoom: bool,
    /// The camera turns with the cursor's motion.
    pub rotate: bool,
    /// After that, the camera moves with the cursor's motion.
    pub translate: bool,
    /// The window is asked to draw again.
    pub request_redraw: bool,
    /// Calls that prepare the frame.
    pub calls: Vec<GlCall>,
}

/// A viewer's flags and the state of its user interface.
#[derive(Clone, Copy, Debug, PartialEq, Eq)]
pub struct Viewer3 {
    pub ui_state: UiState,
    /// The last event asked for a frame: the caller draws its scene now.
    pub should_draw: bool,
    /// The window was asked to close.
    pub should_close: bool,
    /// The last event was a press of the left button that is not meant for
    /// the camera.
    pub is_left_btn_down_not_for_view_ctrl: bool,
    /// The last event turned or moved the camera.
    pub is_view_changed: bool,
}

/// The calls that clear a frame to light blue and set up depth testing with
/// a polygon offset, so that lines drawn over faces stay visible.
pub open spec fn frame_setup() -> Seq<GlCall> {
    seq![
        GlCall::ClearColor {
            rgba: [words::EIGHT_TENTHS, words::EIGHT_TENTHS, words::ONE, words::ONE],
        },
        GlCall::Clear { mask: gl::COLOR_BUFFER_BIT | gl::DEPTH_BUFFER_BIT },
        GlCall::Enable { cap: gl::DEPTH_TEST },
        GlCall::DepthFunc { func: gl::LESS },
        GlCall::Enable { cap: gl::POLYGON_OFFSET_FILL },
        GlCall::PolygonOffset { factor: words::ELEVEN_TENTHS, units: words::FOUR },
    ]
}

impl Viewer3 {
    /// The viewer as it is when its window has just been opened.
    pub fn open() -> (r: Self)
        ensures
            r == (Viewer3 {
                ui_state: (UiState {
                    win_width: 300,
                    win_height: 300,
                    is_left_btn: false,
                    is_mod_alt: false,
                    is_mod_shift: false,
                }),
                should_draw: false,
                should_close: false,
                is_left_btn_down_not_for_view_ctrl: false,
                is_view_changed: false,
            }),
    {
        Viewer3 {
            ui_state: UiState::new(),
            should_draw: false,
            should_close: false,
            is_left_btn_down_not_for_view_ctrl: false,
            is_view_changed: false,
        }
    }

    /// The state of buttons, modifiers and window size after `event`.
    pub open spec fn ui_after(self, event: Event) -> UiState {
        let ui = self.ui_state;
        match event {
            Event::Window { event: WindowEvent::Resized { width, height } } => UiState {
                win_width: width,
                win_height: height,
                ..ui
            },
            Event::Window { event: WindowEvent::MouseInput { state, button } } => if button
                is Left {
                UiState { is_left_btn: state is Pressed, ..ui }
            } else {
                ui
            },
            Event::Window { event: WindowEvent::ModifiersChanged { modifiers } } => UiState {
                is_mod_alt: modifiers.alt,
                is_mod_shift: modifiers.shift,
                ..ui
            },
            _ => ui,
        }
    }

    /// The viewer after `event`. Three flags speak of the last event alone;
    /// `should_close`, once set, stays.
    pub open spec fn after(self, event: Event) -> Viewer3 {
        let ui = self.ui_state;
        Viewer3 {
            ui_state: self.ui_after(event),
            should_draw: event == (Event::Window { event: WindowEvent::RedrawRequested }),
            should_close: self.should_close || event == (Event::Window {
                event: WindowEvent::CloseRequested,
            }),
            is_left_btn_down_not_for_view_ctrl: event == (Event::Window {
                event: WindowEvent::MouseInput {
                    state: ElementState::Pressed,
                    button: MouseButton::Left,
                },
            }) && !ui.is_mod_shift && !ui.is_mod_alt,
            is_view_changed: event == (Event::Window { event: WindowEvent::CursorMoved })
                && ui.is_left_btn && (ui.is_mod_alt || ui.is_mod_shift),
        }
    }

    /// What the caller does on `event`.
    pub open spec fn response_to(self, event: Event) -> ResponseView {
        let ui = self.ui_state;
        let quiet = ResponseView {
            resize: None,
            track_cursor: false,
            zoom: false,
            rotate: false,
            translate: false,
            request_redraw: false,
            calls: Seq::empty(),
        };
        match event {
            Event::Window { event: WindowEvent::Resized { width, height } } => ResponseView {
                resize: Some((width, height)),
                ..quiet
            },
            Event::Window { event: WindowEvent::MouseWheel { delta } } => if delta is LineDelta {
                ResponseView { zoom: true, request_redraw: true, ..quiet }
            } else {
                quiet
            },
            Event::Window { event: WindowEvent::CursorMoved } => ResponseView {
                track_cursor: true,
                rotate: ui.is_left_btn && ui.is_mod_alt,
                translate: ui.is_left_btn && ui.is_mod_shift,
                request_redraw: true,
                ..quiet
            },
            Event::Window { event: WindowEvent::RedrawRequested } => ResponseView {
                calls: frame_setup(),
                ..quiet
            },
            _ => quiet,
        }
    }

    /// Takes one event of the loop: updates the viewer and says what the
    /// caller does.
    pub fn event_handle(&mut self, event: &Event) -> (r: Response)
        ensures
            *final(self) == old(self).after(*event),
            r@ == old(self).response_to(*event),
    {
        self.should_draw = false;
        self.is_left_btn_down_not_for_view_ctrl = false;
        self.is_view_changed = false;
        let mut r = Response {
            resize: None,
            track_cursor: false,
            zoom: false,
            rotate: false,
            translate: false,
            request_redraw: false,
            calls: Vec::new(),
        };
        match event {
            Event::Window { event: win_event } => match win_event {
                WindowEvent::CloseRequested => {
                    self.should_close = true;
                },
                WindowEvent::Resized { width, height } => {
                    r.resize = Some((*width, *height));
                    self.ui_state.win_height = *height;
                    self.ui_state.win_width = *width;
                },
                WindowEvent::MouseInput { state, button } => {
                    match button {
                        MouseButton::Left => {
                            match state {
                                ElementState::Pressed => {
                                    self.ui_state.is_left_btn = true;
                                    if !self.ui_state.is_mod_shift && !self.ui_state.is_mod_alt {
                                        self.is_left_btn_down_not_for_view_ctrl = true;
                                    }
                                },
                                ElementState::Released => {
                                    self.ui_state.is_left_btn = false;
                                },
                            }
                        },
                        _ => {},
                    }
                },
                WindowEvent::MouseWheel { delta } => match delta {
                    MouseScrollDelta::LineDelta => {
                        r.zoom = true;
                        r.request_redraw = true;
                    },
                    MouseScrollDelta::PixelDelta => {},
                },
                WindowEvent::ModifiersChanged { modifiers } => {
                    self.ui_state.is_mod_alt = modifiers.alt;
                    self.ui_state.is_mod_shift = modifiers.shift;
                },
                WindowEvent::CursorMoved => {
                    r.track_cursor = true;
                    if self.ui_state.is_left_btn && self.ui_state.is_mod_alt {
                        r.rotate = true;
                        self.is_view_changed = true;
                    }
                    if self.ui_state.is_left_btn && self.ui_state.is_mod_shift {
                        r.translate = true;
                        self.is_view_changed = true;
                    }
                    r.request_redraw = true;
                },
                WindowEvent::RedrawRequested => {
                    r.calls.push(
                        GlCall::ClearColor {
                            rgba: [
                                words::EIGHT_TENTHS,
                                words::EIGHT_TENTHS,
                                words::ONE,
                                words::ONE,
                            ],
                        },
                    );
                    r.calls.push(
                        GlCall::Clear { mask: gl::COLOR_BUFFER_BIT | gl::DEPTH_BUFFER_BIT },
                    );
                    r.calls.push(GlCall::Enable { cap: gl::DEPTH_TEST });
                    r.calls.push(GlCall::DepthFunc { func: gl::LESS });
                    r.calls.push(GlCall::Enable { cap: gl::POLYGON_OFFSET_FILL });
                    r.calls.push(
                        GlCall::PolygonOffset { factor: words::ELEVEN_TENTHS, units: words::FOUR },
                    );
                    self.should_draw = true;
                },
                _ => {},
            },
            _ => {},
        }
        assert(r.calls@ =~= old(self).response_to(*event).calls);
        r
    }

    /// A frame is drawn only on a request to draw, and then the frame is set
    /// up first; the camera changes only on a move of the cursor or a scroll.
    pub proof fn lemma_answers(self, event: Event)
        ensures
            self.after(event).should_draw <==> self.response_to(event).calls == frame_setup(),
            self.after(event).should_draw <==> event == (Event::Window {
                event: WindowEvent::RedrawRequested,
            }),
            self.after(event).is_view_changed <==> (self.response_to(event).rotate
                || self.response_to(event).translate),
            self.response_to(event).rotate || self.response_to(event).translate
                ==> self.response_to(event).track_cursor && self.ui_state.is_left_btn,
            self.should_close ==> self.after(event).should_close,
            self.after(event).is_left_btn_down_not_for_view_ctrl ==> self.after(
                event,
            ).ui_state.is_left_btn && !self.after(event).is_view_changed,
    {
        assert(frame_setup().len() == 6);
    }
}

/// A response as a plain value.
pub struct ResponseView {
    pub resize: Option<(u32, u32)>,
    pub track_cursor: bool,
    pub zoom: bool,
    pub rotate: bool,
    pub translate: bool,
    pub request_redraw: bool,
    pub calls: Seq<GlCall>,
}

impl View for Response {
    type V = ResponseView;

    open spec fn view(&self) -> ResponseView {
        ResponseView {
            resize: self.resize,
            track_cursor: self.track_cursor,
            zoom: self.zoom,
            rotate: self.rotate,
            translate: self.translate,
            request_redraw: self.request_redraw,
            calls: self.calls@,
        }
    }
}

} // verus!
