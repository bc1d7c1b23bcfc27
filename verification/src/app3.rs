//! A program that shows an image which its content computes anew for every
//! frame, as a texture over the whole window, under trackball navigation.

use vstd::prelude::*;
use crate::app_internal::{surface_action, surface_action_of, AppInternal, SurfaceAction};
use crate::drawer_array_xyzuv::Drawer;
use crate::event::WindowEvent;
use crate::gl;
use crate::gl::GlCall;
use crate::navigation::{navigation_of, ui_after, view_navigation, Navigation};
use crate::view_ui_state::UiState;
use crate::words::{MINUS_ONE, ONE, ZERO};

verus! {

/// Bytes in the vertex buffer: six vertices of four numbers.
pub const QUAD_BYTES: isize = 96;

/// Bytes per pixel of the image.
pub const PIXEL_BYTES: usize = 3;

/// Two triangles that cover the window, each vertex as x, y, u, v. The image's
/// first row lies at the top.
pub open spec fn quad() -> Seq<u32> {
    seq![
        MINUS_ONE, MINUS_ONE, ZERO, ONE,
        ONE, MINUS_ONE, ONE, ONE,
        ONE, ONE, ONE, ZERO,
        MINUS_ONE, MINUS_ONE, ZERO, ONE,
        ONE, ONE, ONE, ZERO,
        MINUS_ONE, ONE, ZERO, ZERO,
    ]
}

/// The vertex data of the quad.
pub fn vertex_data() -> (r: [u32; 24])
    ensures
        r@ == quad(),
{
    let r: [u32; 24] = [
        MINUS_ONE, MINUS_ONE, ZERO, ONE,
        ONE, MINUS_ONE, ONE, ONE,
        ONE, ONE, ONE, ZERO,
        MINUS_ONE, MINUS_ONE, ZERO, ONE,
        ONE, ONE, ONE, ZERO,
        MINUS_ONE, ONE, ZERO, ZERO,
    ];
    assert(r@ =~= quad());
    r
}

/// The calls that fill the buffer `vbo` with the quad, which the caller
/// hands over as buffer 0.
pub open spec fn quad_upload(vbo: u32) -> Seq<GlCall> {
    seq![
        GlCall::BindBuffer { target: gl::ARRAY_BUFFER, buffer: vbo },
        GlCall::BufferData {
            target: gl::ARRAY_BUFFER,
            size: QUAD_BYTES,
            data: 0,
            usage: gl::STATIC_DRAW,
        },
    ]
}

/// The calls that make an image of `width` by `height` pixels, handed over
/// as buffer 0, the texture `id_tex`.
pub open spec fn image_upload(id_tex: u32, width: i32, height: i32) -> Seq<GlCall> {
    seq![
        GlCall::BindTexture { target: gl::TEXTURE_2D, texture: id_tex },
        GlCall::PixelStorei { pname: gl::UNPACK_ALIGNMENT, param: 1 },
        GlCall::TexImage2D {
            target: gl::TEXTURE_2D,
            level: 0,
            internal_format: gl::RGB as i32,
            width,
            height,
            border: 0,
            format: gl::RGB,
            kind: gl::UNSIGNED_BYTE,
            data: 0,
        },
        GlCall::GenerateMipmap { target: gl::TEXTURE_2D },
    ]
}

/// Why a frame cannot be drawn.
#[derive(Clone, Copy, Debug, PartialEq, Eq)]
pub enum FrameError {
    /// The image has not three bytes for each pixel of the window.
    ImageSize,
    /// No renderer was made.
    NoRenderer,
    /// The window is wider than a texture can be described.
    Width,
    /// The window is higher than a texture can be described.
    Height,
}

/// The answer to one window event.
#[derive(Debug, PartialEq, Eq)]
pub struct Handled {
    pub surface: SurfaceAction,
    /// Calls to issue once the surface has its new size.
    pub calls: Vec<GlCall>,
    pub navigation: Navigation,
}

/// The viewport that follows a resize of the surface.
pub open spec fn viewport_of(action: SurfaceAction) -> Seq<GlCall> {
    match action {
        SurfaceAction::Resize { viewport_width, viewport_height, .. } => seq![
            GlCall::Viewport { x: 0, y: 0, width: viewport_width, height: viewport_height },
        ],
        _ => Seq::empty(),
    }
}

/// The window's size as a viewer records it on `action`.
pub open spec fn resized(ui: UiState, action: SurfaceAction) -> UiState {
    match action {
        SurfaceAction::Resize { width, height, .. } => UiState {
            win_width: width,
            win_height: height,
            ..ui
        },
        _ => ui,
    }
}

/// The program's state: the context's whereabouts, the renderer once it is
/// made, and the user interface.
pub struct MyApp<Ctx, State, Failure> {
    pub appi: AppInternal<Ctx, State, Failure>,
    pub renderer: Option<Drawer>,
    pub ui_state: UiState,
}

impl<Ctx, State, Failure> MyApp<Ctx, State, Failure> {
    /// While there is a window there is a renderer.
    pub open spec fn wf(&self) -> bool {
        self.appi.state is Some ==> self.renderer is Some
    }

    /// A program that has a renderer while it has a window can take every
    /// window event.
    pub proof fn lemma_wf_takes_events(self, event: WindowEvent)
        requires
            self.wf(),
        ensures
            surface_action_of(event, self.appi.state is Some) is Resize ==> self.renderer is Some,
    {
    }

    /// A program without window, context and renderer.
    pub fn new() -> (r: Self)
        ensures
            r.appi.exit_state is Ok,
            r.appi.not_current_gl_context is None,
            r.appi.state is None,
            r.renderer is None,
            r.ui_state == (UiState {
                win_width: 300,
                win_height: 300,
                is_left_btn: false,
                is_mod_alt: false,
                is_mod_shift: false,
            }),
    {
        MyApp { appi: AppInternal::new(), renderer: None, ui_state: UiState::new() }
    }

    /// A window has come and the context is current in `state`; there must
    /// be no window already. A renderer is made and set up by the caller only
    /// where `self.renderer` is `None`, and handed in as `fresh`; one that
    /// exists is kept. There must be one or the other. Plans the upload of
    /// the quad into the renderer's buffer.
    pub fn resumed(&mut self, state: State, fresh: Option<Drawer>) -> (r: Vec<GlCall>)
        requires
            old(self).appi.state is None,
            old(self).renderer is None ==> fresh is Some,
        ensures
            final(self).appi.state == Some(state),
            final(self).appi.not_current_gl_context == old(self).appi.not_current_gl_context,
            final(self).appi.exit_state == old(self).appi.exit_state,
            final(self).ui_state == old(self).ui_state,
            final(self).renderer == if old(self).renderer is Some {
                old(self).renderer
            } else {
                fresh
            },
            final(self).wf(),
            r@ == quad_upload(final(self).renderer->Some_0.vbo),
    {
        if self.renderer.is_none() {
            self.renderer = fresh;
        }
        self.appi.enter(state);
        let vbo: u32 = match &self.renderer {
            Some(renderer) => renderer.vbo,
            None => 0,
        };
        let mut calls: Vec<GlCall> = Vec::new();
        calls.push(GlCall::BindBuffer { target: gl::ARRAY_BUFFER, buffer: vbo });
        calls.push(
            GlCall::BufferData {
                target: gl::ARRAY_BUFFER,
                size: QUAD_BYTES,
                data: 0,
                usage: gl::STATIC_DRAW,
            },
        );
        assert(calls@ =~= quad_upload(vbo));
        calls
    }

    /// Takes one window event. A resize goes to the surface, to the viewport
    /// and into the recorded window size, if there is a window; a request to
    /// close ends the loop; then the event is read for navigation. The
    /// viewport is the renderer's to set, so there must be a renderer where
    /// the surface is resized.
    pub fn window_event(&mut self, event: WindowEvent) -> (r: Handled)
        requires
            surface_action_of(event, old(self).appi.state is Some) is Resize ==> old(
                self,
            ).renderer is Some,
        ensures
            r.surface == surface_action_of(event, old(self).appi.state is Some),
            r.calls@ == viewport_of(r.surface),
            r.navigation == navigation_of(event, resized(old(self).ui_state, r.surface)),
            final(self).ui_state == ui_after(event, resized(old(self).ui_state, r.surface)),
            final(self).appi == old(self).appi,
            final(self).renderer == old(self).renderer,
    {
        let surface = surface_action(&event, self.appi.state.is_some());
        let mut calls: Vec<GlCall> = Vec::new();
        match surface {
            SurfaceAction::Resize { width, height, viewport_width, viewport_height } => {
                calls.push(
                    GlCall::Viewport { x: 0, y: 0, width: viewport_width, height: viewport_height },
                );
                self.ui_state.win_width = width;
                self.ui_state.win_height = height;
            },
            _ => {},
        }
        assert(calls@ =~= viewport_of(surface));
        let navigation = view_navigation(event, &mut self.ui_state);
        Handled { surface, calls, navigation }
    }

    /// Whether a frame is drawn now: only while there is a window.
    pub fn about_to_wait(&self) -> (r: bool)
        ensures
            r == self.appi.state is Some,
    {
        self.appi.state.is_some()
    }

    /// Why no frame can be drawn from an image of `image_len` bytes for a
    /// window of `width` by `height` pixels, if that is so.
    pub open spec fn frame_error(self, width: usize, height: usize, image_len: usize) -> Option<
        FrameError,
    > {
        if image_len != width * height * PIXEL_BYTES {
            Some(FrameError::ImageSize)
        } else if self.renderer is None {
            Some(FrameError::NoRenderer)
        } else if width > i32::MAX {
            Some(FrameError::Width)
        } else if height > i32::MAX {
            Some(FrameError::Height)
        } else {
            None
        }
    }

    /// Plans one frame from the image that the content has computed for a
    /// window of `img_shape.0` by `img_shape.1` pixels: the image, handed
    /// over as buffer 0, becomes the renderer's texture, and the renderer
    /// draws.
    pub fn frame(&self, img_shape: (usize, usize), image_len: usize) -> (r: Result<
        Vec<GlCall>,
        FrameError,
    >)
        ensures
            match self.frame_error(img_shape.0, img_shape.1, image_len) {
                Some(e) => r == Err::<Vec<GlCall>, FrameError>(e),
                None => r is Ok && r->Ok_0@ == image_upload(
                    self.renderer->Some_0.id_tex,
                    img_shape.0 as i32,
                    img_shape.1 as i32,
                ) + self.renderer->Some_0.draw_calls(),
            },
    {
        let (width, height) = img_shape;
        if !image_fills(width, height, image_len) {
            return Err(FrameError::ImageSize);
        }
        let renderer = match &self.renderer {
            Some(renderer) => renderer,
            None => {
                return Err(FrameError::NoRenderer);
            },
        };
        if width > i32::MAX as usize {
            return Err(FrameError::Width);
        }
        if height > i32::MAX as usize {
            return Err(FrameError::Height);
        }
        let mut calls: Vec<GlCall> = Vec::new();
        calls.push(GlCall::BindTexture { target: gl::TEXTURE_2D, texture: renderer.id_tex });
        calls.push(GlCall::PixelStorei { pname: gl::UNPACK_ALIGNMENT, param: 1 });
        calls.push(
            GlCall::TexImage2D {
                target: gl::TEXTURE_2D,
                level: 0,
                internal_format: gl::RGB as i32,
                width: width as i32,
                height: height as i32,
                border: 0,
                format: gl::RGB,
                kind: gl::UNSIGNED_BYTE,
                data: 0,
            },
        );
        calls.push(GlCall::GenerateMipmap { target: gl::TEXTURE_2D });
        let mut draw = renderer.draw();
        calls.append(&mut draw);
        assert(calls@ =~= image_upload(renderer.id_tex, width as i32, height as i32)
            + renderer.draw_calls());
        Ok(calls)
    }
}

/// Whether `image_len` bytes are three for each of `width` by `height`
/// pixels.
pub fn image_fills(width: usize, height: usize, image_len: usize) -> (r: bool)
    ensures
        r == (image_len == width * height * PIXEL_BYTES),
{
    match width.checked_mul(height) {
        Some(pixels) => match pixels.checked_mul(PIXEL_BYTES) {
            Some(bytes) => bytes == image_len,
            None => false,
        },
        None => {
            assert(width * height * PIXEL_BYTES > usize::MAX) by (nonlinear_arith)
                requires
                    width * height > usize::MAX,
            ;
            false
        },
    }
}

} // verus!
