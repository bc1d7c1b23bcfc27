//! Trackball navigation: what a window event does to the camera.
//!
//! Holding alt and dragging with the left button turns the camera, holding
//! shift and dragging moves it, and the wheel zooms. The decision is taken
//! here from the event's kind and the state of buttons and modifiers; the
//! caller applies it to the camera with the cursor's motion.

use vstd::prelude::*;
use crate::event::{ElementState, MouseButton, MouseScrollDelta, WindowEvent};
use crate::view_ui_state::UiState;

verus! {

/// What happens to the camera.
#[derive(Clone, Copy, Debug, PartialEq, Eq)]
pub enum CameraMotion {
    /// Nothing.
    Still,
    /// The scale is multiplied by 1.01 to the power of the lines scrolled.
    Zoom,
    /// The camera turns about the axis perpendicular to the cursor's motion.
    Rotate,
    /// The camera moves with the cursor.
    Translate,
}

/// The answer to one event.
#[derive(Clone, Copy, Debug, PartialEq, Eq)]
pub struct Navigation {
    /// The cursor has a new position, to be recorded before `motion` is
    /// applied.
    pub track_cursor: bool,
    pub motion: CameraMotion,
    /// The view has changed and the window is to be drawn again.
    pub redraw: bool,
}

impl Navigation {
    /// The answer that changes nothing.
    pub open spec fn none() -> Navigation {
        Navigation { track_cursor: false, motion: CameraMotion::Still, redraw: false }
    }
}

/// The state of buttons and modifiers after `event`.
pub open spec fn ui_after(event: WindowEvent, ui: UiState) -> UiState {
    match event {
        WindowEvent::MouseInput { state, button } => if button is Left {
            UiState { is_left_btn: state is Pressed, ..ui }
        } else {
            ui
        },
        WindowEvent::ModifiersChanged { modifiers } => UiState {
            is_mod_alt: modifiers.spec_is_alt(),
            is_mod_shift: modifiers.spec_is_shift(),
            ..ui
        },
        _ => ui,
    }
}

/// What a move of the cursor does to the camera: with the left button down,
/// alt turns it and shift moves it, and alt wins where both are set.
pub open spec fn drag_motion(ui: UiState) -> CameraMotion {
    if ui.is_left_btn && ui.is_mod_alt {
        CameraMotion::Rotate
    } else if ui.is_left_btn && ui.is_mod_shift {
        CameraMotion::Translate
    } else {
        CameraMotion::Still
    }
}

/// The answer to `event` in the state `ui`.
pub open spec fn navigation_of(event: WindowEvent, ui: UiState) -> Navigation {
    match event {
        WindowEvent::MouseWheel { delta } => if delta is LineDelta {
            Navigation { track_cursor: false, motion: CameraMotion::Zoom, redraw: true }
        } else {
            Navigation::none()
        },
        WindowEvent::CursorMoved => Navigation {
            track_cursor: true,
            motion: drag_motion(ui),
            redraw: !(drag_motion(ui) is Still),
        },
        _ => Navigation::none(),
    }
}

/// Takes one window event: updates buttons and modifiers in `ui_state` and
/// says what the event does to the camera.
pub fn view_navigation(event: WindowEvent, ui_state: &mut UiState) -> (r: Navigation)
    ensures
        *final(ui_state) == ui_after(event, *old(ui_state)),
        r == navigation_of(event, *old(ui_state)),
{
    match event {
        WindowEvent::MouseWheel { delta } => match delta {
            MouseScrollDelta::LineDelta => Navigation {
                track_cursor: false,
                motion: CameraMotion::Zoom,
                redraw: true,
            },
            MouseScrollDelta::PixelDelta => Navigation {
                track_cursor: false,
                motion: CameraMotion::Still,
                redraw: false,
            },
        },
        WindowEvent::MouseInput { state, button } => {
            match button {
                MouseButton::Left => {
                    match state {
                        ElementState::Pressed => {
                            ui_state.is_left_btn = true;
                        },
                        ElementState::Released => {
                            ui_state.is_left_btn = false;
                        },
                    }
                },
                _ => {},
            }
            Navigation { track_cursor: false, motion: CameraMotion::Still, redraw: false }
        },
        WindowEvent::ModifiersChanged { modifiers } => {
            ui_state.is_mod_alt = modifiers.is_alt();
            ui_state.is_mod_shift = modifiers.is_shift();
            Navigation { track_cursor: false, motion: CameraMotion::Still, redraw: false }
        },
        WindowEvent::CursorMoved => {
            if ui_state.is_left_btn && ui_state.is_mod_alt {
                Navigation { track_cursor: true, motion: CameraMotion::Rotate, redraw: true }
            } else if ui_state.is_left_btn && ui_state.is_mod_shift {
                Navigation { track_cursor: true, motion: CameraMotion::Translate, redraw: true }
            } else {
                Navigation { track_cursor: true, motion: CameraMotion::Still, redraw: false }
            }
        },
        _ => Navigation { track_cursor: false, motion: CameraMotion::Still, redraw: false },
    }
}

/// The window is drawn again exactly when the camera has moved.
pub proof fn lemma_redraw_iff_camera_moves(event: WindowEvent, ui: UiState)
    ensures
        navigation_of(event, ui).redraw <==> !(navigation_of(event, ui).motion is Still),
{
}

/// The camera turns or moves only on a move of the cursor with the left
/// button down and the modifier of that motion held.
pub proof fn lemma_drag_needs_button_and_modifier(event: WindowEvent, ui: UiState)
    ensures
        navigation_of(event, ui).motion is Rotate ==> event is CursorMoved && ui.is_left_btn
            && ui.is_mod_alt,
        navigation_of(event, ui).motion is Translate ==> event is CursorMoved && ui.is_left_btn
            && ui.is_mod_shift && !ui.is_mod_alt,
{
}

/// No event changes the size that is recorded for the window, and only the
/// left button and the modifiers change the rest.
pub proof fn lemma_ui_changes(event: WindowEvent, ui: UiState)
    ensures
        ui_after(event, ui).win_width == ui.win_width,
        ui_after(event, ui).win_height == ui.win_height,
        ui_after(event, ui).is_left_btn != ui.is_left_btn ==> event is MouseInput
            && event->button is Left,
        (ui_after(event, ui).is_mod_alt != ui.is_mod_alt || ui_after(event, ui).is_mod_shift
            != ui.is_mod_shift) ==> event is ModifiersChanged,
        !(ui_after(event, ui).is_mod_alt && ui_after(event, ui).is_mod_shift) || (ui.is_mod_alt
            && ui.is_mod_shift),
{
}

} // verus!
