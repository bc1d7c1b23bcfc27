//! Rendering into a buffer that is not shown, and reading the picture back.

use vstd::prelude::*;
use crate::cast::{as_signed, signed};
use crate::gl;
use crate::gl::GlCall;
use crate::words::{EIGHT_TENTHS, ONE};

verus! {

/// Bytes per pixel of the picture: red, green, blue.
pub const PIXEL_BYTES: u32 = 3;

/// A picture of `width` by `height` pixels that is rendered off screen.
#[derive(Clone, Copy, Debug, PartialEq, Eq)]
pub struct OffScreenRender {
    pub width: u32,
    pub height: u32,
}

/// How the picture is read back.
#[derive(Debug, PartialEq, Eq)]
pub struct Readback {
    /// Bytes of the buffer that takes the picture, which the caller makes
    /// and hands over as buffer 0.
    pub len: usize,
    pub calls: Vec<GlCall>,
}

impl OffScreenRender {
    /// A picture of the given size.
    pub fn new(width: u32, height: u32) -> (r: Self)
        ensures
            r == (OffScreenRender { width, height }),
    {
        OffScreenRender { width, height }
    }

    /// The calls that attach the render buffer `render_buf` as the colour of
    /// the framebuffer `fbo`, both of the picture's size, and clear it to
    /// light blue.
    pub open spec fn start_calls(self, fbo: u32, render_buf: u32) -> Seq<GlCall> {
        seq![
            GlCall::Viewport {
                x: 0,
                y: 0,
                width: signed(self.width) as i32,
                height: signed(self.height) as i32,
            },
            GlCall::BindFramebuffer { target: gl::FRAMEBUFFER, framebuffer: fbo },
            GlCall::BindRenderbuffer { target: gl::RENDERBUFFER, renderbuffer: render_buf },
            GlCall::RenderbufferStorage {
                target: gl::RENDERBUFFER,
                internal_format: gl::RGB,
                width: signed(self.width) as i32,
                height: signed(self.height) as i32,
            },
            GlCall::BindRenderbuffer { target: gl::RENDERBUFFER, renderbuffer: 0 },
            GlCall::FramebufferRenderbuffer {
                target: gl::FRAMEBUFFER,
                attachment: gl::COLOR_ATTACHMENT0,
                renderbuffer_target: gl::RENDERBUFFER,
                renderbuffer: render_buf,
            },
            GlCall::ClearColor { rgba: [EIGHT_TENTHS, EIGHT_TENTHS, ONE, ONE] },
            GlCall::Clear { mask: gl::COLOR_BUFFER_BIT },
        ]
    }

    /// Plans the start of rendering into the fresh framebuffer `fbo` with the
    /// fresh render buffer `render_buf`.
    pub fn start(&self, fbo: u32, render_buf: u32) -> (r: Vec<GlCall>)
        ensures
            r@ == self.start_calls(fbo, render_buf),
    {
        let width: i32 = as_signed(self.width);
        let height: i32 = as_signed(self.height);
        let mut calls: Vec<GlCall> = Vec::new();
        calls.push(GlCall::Viewport { x: 0, y: 0, width, height });
        calls.push(GlCall::BindFramebuffer { target: gl::FRAMEBUFFER, framebuffer: fbo });
        calls.push(GlCall::BindRenderbuffer { target: gl::RENDERBUFFER, renderbuffer: render_buf });
        calls.push(
            GlCall::RenderbufferStorage {
                target: gl::RENDERBUFFER,
                internal_format: gl::RGB,
                width,
                height,
            },
        );
        calls.push(GlCall::BindRenderbuffer { target: gl::RENDERBUFFER, renderbuffer: 0 });
        calls.push(
            GlCall::FramebufferRenderbuffer {
                target: gl::FRAMEBUFFER,
                attachment: gl::COLOR_ATTACHMENT0,
                renderbuffer_target: gl::RENDERBUFFER,
                renderbuffer: render_buf,
            },
        );
        calls.push(GlCall::ClearColor { rgba: [EIGHT_TENTHS, EIGHT_TENTHS, ONE, ONE] });
        calls.push(GlCall::Clear { mask: gl::COLOR_BUFFER_BIT });
        assert(calls@ =~= self.start_calls(fbo, render_buf));
        calls
    }

    /// Bytes of the picture: three for each pixel.
    pub open spec fn picture_bytes(self) -> int {
        self.width * self.height * PIXEL_BYTES
    }

    /// The calls that read the whole picture from the colour attachment into
    /// buffer 0, row by row from the bottom, three bytes a pixel.
    pub open spec fn save_calls(self) -> Seq<GlCall> {
        seq![
            GlCall::ReadBuffer { src: gl::COLOR_ATTACHMENT0 },
            GlCall::ReadPixels {
                x: 0,
                y: 0,
                width: signed(self.width) as i32,
                height: signed(self.height) as i32,
                format: gl::RGB,
                kind: gl::UNSIGNED_BYTE,
                data: 0,
            },
        ]
    }

    /// Plans reading the picture back. `None` where the number of its bytes
    /// does not fit in 32 bits.
    pub fn save(&self) -> (r: Option<Readback>)
        ensures
            r is Some <==> self.picture_bytes() <= u32::MAX,
            r matches Some(plan) ==> plan.len == self.picture_bytes() && plan.calls@
                == self.save_calls(),
    {
        let pixels: u32 = match self.width.checked_mul(self.height) {
            Some(pixels) => pixels,
            None => {
                assert(self.width * self.height * PIXEL_BYTES > u32::MAX) by (nonlinear_arith)
                    requires
                        self.width * self.height > u32::MAX,
                ;
                return None;
            },
        };
        let bytes: u32 = match pixels.checked_mul(PIXEL_BYTES) {
            Some(bytes) => bytes,
            None => {
                return None;
            },
        };
        let mut calls: Vec<GlCall> = Vec::new();
        calls.push(GlCall::ReadBuffer { src: gl::COLOR_ATTACHMENT0 });
        calls.push(
            GlCall::ReadPixels {
                x: 0,
                y: 0,
                width: as_signed(self.width),
                height: as_signed(self.height),
                format: gl::RGB,
                kind: gl::UNSIGNED_BYTE,
                data: 0,
            },
        );
        assert(calls@ =~= self.save_calls());
        Some(Readback { len: bytes as usize, calls })
    }
}

} // verus!
