//! The vocabulary shared by every draw plan: OpenGL enumerants and the calls
//! that a plan is made of.
//!
//! Nothing in this crate talks to a graphics driver. A drawer computes the
//! calls that have to be issued, as plain values, and whoever owns the current
//! context issues them in order. Floating point arguments travel as their
//! IEEE-754 single precision words. The enumerants carry the values of the
//! API's registry, under its names without the prefix.

use vstd::prelude::*;

verus! {

/// The boolean false.
pub const FALSE: u8 = 0;

pub const POINTS: u32 = 0x0000;

pub const TRIANGLES: u32 = 0x0004;

pub const DEPTH_BUFFER_BIT: u32 = 0x0000_0100;

pub const COLOR_BUFFER_BIT: u32 = 0x0000_4000;

pub const LESS: u32 = 0x0201;

pub const DEPTH_TEST: u32 = 0x0B71;

pub const UNPACK_ALIGNMENT: u32 = 0x0CF5;

pub const TEXTURE_2D: u32 = 0x0DE1;

pub const UNSIGNED_BYTE: u32 = 0x1401;

pub const UNSIGNED_INT: u32 = 0x1405;

pub const FLOAT: u32 = 0x1406;

pub const RGB: u32 = 0x1907;

pub const POLYGON_OFFSET_FILL: u32 = 0x8037;

pub const TEXTURE0: u32 = 0x84C0;

pub const ARRAY_BUFFER: u32 = 0x8892;

pub const ELEMENT_ARRAY_BUFFER: u32 = 0x8893;

pub const STATIC_DRAW: u32 = 0x88E4;

pub const FRAGMENT_SHADER: u32 = 0x8B30;

pub const VERTEX_SHADER: u32 = 0x8B31;

pub const COLOR_ATTACHMENT0: u32 = 0x8CE0;

pub const FRAMEBUFFER: u32 = 0x8D40;

pub const RENDERBUFFER: u32 = 0x8D41;

/// Bytes taken by one single precision float, and by one element index.
pub const WORD_BYTES: usize = 4;

/// One call into the graphics API, with its arguments as plain values.
///
/// A call that reads or fills client memory names the buffer by `data`: its
/// position among the buffers that the caller hands to whoever issues the plan.
#[allow(inconsistent_fields)]
#[derive(Clone, Copy, Debug, PartialEq, Eq)]
pub enum GlCall {
    UseProgram { program: u32 },
    BindVertexArray { vao: u32 },
    BindBuffer { target: u32, buffer: u32 },
    BufferData { target: u32, size: isize, data: usize, usage: u32 },
    EnableVertexAttribArray { index: u32 },
    VertexAttribPointer { index: u32, size: i32, kind: u32, normalized: u8, stride: i32, offset: usize },
    Uniform1i { location: i32, value: i32 },
    Uniform3f { location: i32, value: [u32; 3] },
    UniformMatrix4fv { location: i32, count: i32, transpose: u8, value: [u32; 16] },
    DrawArrays { mode: u32, first: i32, count: i32 },
    DrawElements { mode: u32, count: i32, kind: u32, offset: usize },
    ClearColor { rgba: [u32; 4] },
    Clear { mask: u32 },
    Viewport { x: i32, y: i32, width: i32, height: i32 },
    Enable { cap: u32 },
    DepthFunc { func: u32 },
    PolygonOffset { factor: u32, units: u32 },
    ActiveTexture { texture: u32 },
    BindTexture { target: u32, texture: u32 },
    PixelStorei { pname: u32, param: i32 },
    TexImage2D {
        target: u32,
        level: i32,
        internal_format: i32,
        width: i32,
        height: i32,
        border: i32,
        format: u32,
        kind: u32,
        data: usize,
    },
    GenerateMipmap { target: u32 },
    ShaderSource { shader: u32, data: usize },
    CompileShader { shader: u32 },
    AttachShader { program: u32, shader: u32 },
    LinkProgram { program: u32 },
    DeleteShader { shader: u32 },
    DeleteProgram { program: u32 },
    DeleteBuffer { buffer: u32 },
    DeleteVertexArray { vao: u32 },
    DeleteTexture { texture: u32 },
    BindFramebuffer { target: u32, framebuffer: u32 },
    BindRenderbuffer { target: u32, renderbuffer: u32 },
    RenderbufferStorage { target: u32, internal_format: u32, width: i32, height: i32 },
    FramebufferRenderbuffer { target: u32, attachment: u32, renderbuffer_target: u32, renderbuffer: u32 },
    ReadBuffer { src: u32 },
    ReadPixels { x: i32, y: i32, width: i32, height: i32, format: u32, kind: u32, data: usize },
}

/// The calls that release the buffers named in `buffers`, one call for each
/// name, in their order.
pub open spec fn buffer_releases(buffers: Seq<u32>) -> Seq<GlCall> {
    buffers.map_values(|buffer: u32| GlCall::DeleteBuffer { buffer })
}

/// Adds to `calls` the release of each buffer named in `buffers`.
pub fn push_buffer_releases(calls: &mut Vec<GlCall>, buffers: &Vec<u32>)
    ensures
        final(calls)@ == old(calls)@ + buffer_releases(buffers@),
{
    let ghost before = calls@;
    let mut k: usize = 0;
    assert(calls@ =~= before + buffer_releases(buffers@.take(0)));
    while k < buffers.len()
        invariant
            k <= buffers.len(),
            calls@ == before + buffer_releases(buffers@.take(k as int)),
        decreases buffers.len() - k,
    {
        calls.push(GlCall::DeleteBuffer { buffer: buffers[k] });
        assert(buffers@.take(k + 1) =~= buffers@.take(k as int).push(buffers@[k as int]));
        assert(calls@ =~= before + buffer_releases(buffers@.take(k + 1)));
        k = k + 1;
    }
    assert(buffers@.take(buffers@.len() as int) =~= buffers@);
}

} // verus!
