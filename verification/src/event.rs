//! Window events, reduced to what the viewers decide on.
//!
//! An event keeps its kind and the integers and flags that choose the answer.
//! Cursor coordinates and scroll amounts stay with the caller, who applies
//! them once a viewer has said what the event means.

use vstd::prelude::*;

verus! {

/// A button of the mouse.
#[derive(Clone, Copy, Debug, PartialEq, Eq)]
pub enum MouseButton {
    Left,
    Right,
    Middle,
    Back,
    Forward,
    Other,
}

/// Whether a button or a key went down or up.
#[derive(Clone, Copy, Debug, PartialEq, Eq)]
pub enum ElementState {
    Pressed,
    Released,
}

/// How a scroll amount is measured.
#[derive(Clone, Copy, Debug, PartialEq, Eq)]
pub enum MouseScrollDelta {
    /// In lines or rows, as a mouse wheel reports it.
    LineDelta,
    /// In pixels, as a touchpad reports it.
    PixelDelta,
}

/// A key, as far as the viewers tell keys apart.
#[derive(Clone, Copy, Debug, PartialEq, Eq)]
pub enum Key {
    Escape,
    Other,
}

/// The modifier keys that are held down.
#[derive(Clone, Copy, Debug, PartialEq, Eq)]
pub struct Modifiers {
    pub shift: bool,
    pub control: bool,
    pub alt: bool,
    pub logo: bool,
}

impl Modifiers {
    /// Alt is held and no other modifier is.
    pub open spec fn spec_is_alt(self) -> bool {
        self.alt && !self.shift && !self.control && !self.logo
    }

    /// Shift is held and no other modifier is.
    pub open spec fn spec_is_shift(self) -> bool {
        self.shift && !self.alt && !self.control && !self.logo
    }

    #[verifier::when_used_as_spec(spec_is_alt)]
    pub fn is_alt(self) -> (r: bool)
        ensures
            r == self.spec_is_alt(),
    {
        self.alt && !self.shift && !self.control && !self.logo
    }

    #[verifier::when_used_as_spec(spec_is_shift)]
    pub fn is_shift(self) -> (r: bool)
        ensures
            r == self.spec_is_shift(),
    {
        self.shift && !self.alt && !self.control && !self.logo
    }
}

/// An event of the window.
#[derive(Clone, Copy, Debug, PartialEq, Eq)]
pub enum WindowEvent {
    /// The window has a new size, in physical pixels.
    Resized { width: u32, height: u32 },
    CloseRequested,
    /// A key went down or up.
    KeyboardInput { key: Key },
    MouseWheel { delta: MouseScrollDelta },
    MouseInput { state: ElementState, button: MouseButton },
    ModifiersChanged { modifiers: Modifiers },
    CursorMoved,
    RedrawRequested,
    /// Any event that no viewer answers.
    Other,
}

/// An event of the event loop.
#[derive(Clone, Copy, Debug, PartialEq, Eq)]
pub enum Event {
    LoopDestroyed,
    Window { event: WindowEvent },
    /// Any event that no viewer answers.
    Other,
}

impl WindowEvent {
    /// The event asks the program to end: the window is to be closed, or the
    /// escape key was used.
    pub open spec fn spec_asks_exit(self) -> bool {
        self is CloseRequested || self == (WindowEvent::KeyboardInput { key: Key::Escape })
    }

    #[verifier::when_used_as_spec(spec_asks_exit)]
    pub fn asks_exit(self) -> (r: bool)
        ensures
            r == self.spec_asks_exit(),
    {
        match self {
            WindowEvent::CloseRequested => true,
            WindowEvent::KeyboardInput { key: Key::Escape } => true,
            _ => false,
        }
    }

    /// The size that the event announces, where it is a resize to a size with
    /// no side of zero pixels.
    pub open spec fn spec_new_size(self) -> Option<(u32, u32)> {
        match self {
            WindowEvent::Resized { width, height } => if width != 0 && height != 0 {
                Some((width, height))
            } else {
                None
            },
            _ => None,
        }
    }

    #[verifier::when_used_as_spec(spec_new_size)]
    pub fn new_size(self) -> (r: Option<(u32, u32)>)
        ensures
            r == self.spec_new_size(),
    {
        match self {
            WindowEvent::Resized { width, height } => {
                if width != 0 && height != 0 {
                    Some((width, height))
                } else {
                    None
                }
            },
            _ => None,
        }
    }
}

} // verus!
