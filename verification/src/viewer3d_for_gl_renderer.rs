//! A viewer that draws with a renderer of the caller's, under trackball
//! navigation.

use vstd::prelude::*;
use crate::app3::{viewport_of, Handled};
use crate::app_internal::{surface_action, surface_action_of, AppInternal, SurfaceAction};
use crate::event::WindowEvent;
use crate::gl;
use crate::gl::GlCall;
use crate::navigation::{navigation_of, ui_after, view_navigation};
use crate::view_ui_state::UiState;
use crate::words::{ONE, THREE_TENTHS};

verus! {

/// The calls that clear a frame to dark grey, colour first and depth after.
pub open spec fn frame_clear() -> Seq<GlCall> {
    seq![
        GlCall::ClearColor { rgba: [THREE_TENTHS, THREE_TENTHS, THREE_TENTHS, ONE] },
        GlCall::Clear { mask: gl::COLOR_BUFFER_BIT },
        GlCall::Clear { mask: gl::DEPTH_BUFFER_BIT },
    ]
}

/// The viewer's state: the context's whereabouts, the user interface and two
/// flags for the caller.
pub struct Viewer3d<Ctx, State, Failure> {
    pub appi: AppInternal<Ctx, State, Failure>,
    pub ui_state: UiState,
    /// Cleared by every window event.
    pub is_left_btn_down_not_for_view_ctrl: bool,
    /// Left to the caller.
    pub is_view_changed: bool,
}

impl<Ctx, State, Failure> Viewer3d<Ctx, State, Failure> {
    /// A viewer without window and context, its flags down.
    pub fn new() -> (r: Self)
        ensures
            r.appi.exit_state is Ok,
            r.appi.not_current_gl_context is None,
            r.appi.state is None,
            r.ui_state == (UiState {
                win_width: 300,
                win_height: 300,
                is_left_btn: false,
                is_mod_alt: false,
                is_mod_shift: false,
            }),
            !r.is_left_btn_down_not_for_view_ctrl,
            !r.is_view_changed,
    {
        Viewer3d {
            appi: AppInternal::new(),
            ui_state: UiState::new(),
            is_left_btn_down_not_for_view_ctrl: false,
            is_view_changed: false,
        }
    }

    /// A window has come and the context is current in `state`; there must
    /// be no window already. Plans the switch to depth testing, after which
    /// the caller sets up its renderer.
    pub fn resumed(&mut self, state: State) -> (r: Vec<GlCall>)
        requires
            old(self).appi.state is None,
        ensures
            final(self).appi.state == Some(state),
            final(self).appi.not_current_gl_context == old(self).appi.not_current_gl_context,
            final(self).appi.exit_state == old(self).appi.exit_state,
            final(self).ui_state == old(self).ui_state,
            final(self).is_left_btn_down_not_for_view_ctrl == old(
                self,
            ).is_left_btn_down_not_for_view_ctrl,
            final(self).is_view_changed == old(self).is_view_changed,
            r@ == seq![GlCall::Enable { cap: gl::DEPTH_TEST }],
    {
        self.appi.enter(state);
        let mut calls: Vec<GlCall> = Vec::new();
        calls.push(GlCall::Enable { cap: gl::DEPTH_TEST });
        assert(calls@ =~= seq![GlCall::Enable { cap: gl::DEPTH_TEST }]);
        calls
    }

    /// Takes one window event. A resize goes to the surface and to the
    /// viewport, if there is a window; a request to close ends the loop; then
    /// the event is read for navigation. The size recorded for the window
    /// stays as it is.
    pub fn window_event(&mut self, event: WindowEvent) -> (r: Handled)
        ensures
            r.surface == surface_action_of(event, old(self).appi.state is Some),
            r.calls@ == viewport_of(r.surface),
            r.navigation == navigation_of(event, old(self).ui_state),
            final(self).ui_state == ui_after(event, old(self).ui_state),
            !final(self).is_left_btn_down_not_for_view_ctrl,
            final(self).is_view_changed == old(self).is_view_changed,
            final(self).appi == old(self).appi,
    {
        self.is_left_btn_down_not_for_view_ctrl = false;
        let surface = surface_action(&event, self.appi.state.is_some());
        let mut calls: Vec<GlCall> = Vec::new();
        match surface {
            SurfaceAction::Resize { width: _, height: _, viewport_width, viewport_height } => {
                calls.push(
                    GlCall::Viewport { x: 0, y: 0, width: viewport_width, height: viewport_height },
                );
            },
            _ => {},
        }
        assert(calls@ =~= viewport_of(surface));
        let navigation = view_navigation(event, &mut self.ui_state);
        Handled { surface, calls, navigation }
    }

    /// Plans the start of a frame, after which the caller's renderer draws:
    /// `None` while there is no window.
    pub fn about_to_wait(&self) -> (r: Option<Vec<GlCall>>)
        ensures
            r is Some <==> self.appi.state is Some,
            r matches Some(calls) ==> calls@ == frame_clear(),
    {
        if self.appi.state.is_none() {
            return None;
        }
        let mut calls: Vec<GlCall> = Vec::new();
        calls.push(GlCall::ClearColor { rgba: [THREE_TENTHS, THREE_TENTHS, THREE_TENTHS, ONE] });
        calls.push(GlCall::Clear { mask: gl::COLOR_BUFFER_BIT });
        calls.push(GlCall::Clear { mask: gl::DEPTH_BUFFER_BIT });
        assert(calls@ =~= frame_clear());
        Some(calls)
    }
}

} // verus!
