//! Draws a textured array of triangles whose vertices are interleaved as
//! position (x, y) and texture coordinate (u, v).

use vstd::prelude::*;
use crate::cast::{as_unsigned, unsigned};
use crate::gl;
use crate::gl::GlCall;
use crate::words;

verus! {

/// Bytes from one vertex to the next: four numbers.
pub const STRIDE: i32 = 16;

/// Bytes from the start of a vertex to its texture coordinate: two numbers.
pub const UV_OFFSET: usize = 8;

/// Vertices drawn: two triangles.
pub const NUM_VERTICES: i32 = 6;

/// The names under which the drawer knows its objects.
#[derive(Clone, Copy, Debug, PartialEq, Eq)]
pub struct Drawer {
    pub program: u32,
    pub vao: u32,
    pub vbo: u32,
    pub loc_tex: i32,
    pub id_tex: u32,
}

/// The name that the shader program does not know.
#[derive(Clone, Copy, Debug, PartialEq, Eq)]
pub enum MissingLocation {
    /// The attribute `position`.
    Position,
    /// The attribute `texIn`.
    TexIn,
    /// The uniform `myTextureSampler`.
    Sampler,
}

/// The first of the three names whose location is `-1`, in the order
/// position, texture coordinate, sampler.
pub open spec fn missing(loc_xyz: i32, loc_uv: i32, loc_tex: i32) -> Option<MissingLocation> {
    if loc_xyz == -1 {
        Some(MissingLocation::Position)
    } else if loc_uv == -1 {
        Some(MissingLocation::TexIn)
    } else if loc_tex == -1 {
        Some(MissingLocation::Sampler)
    } else {
        None
    }
}

impl Drawer {
    /// A drawer that owns no object yet.
    pub fn new() -> (r: Self)
        ensures
            r == (Drawer { program: 0, vao: 0, vbo: 0, loc_tex: 0, id_tex: 0 }),
    {
        Drawer { program: 0, vao: 0, vbo: 0, loc_tex: 0, id_tex: 0 }
    }

    /// The calls of one frame: the texture of unit 0 is drawn over a
    /// background of light grey.
    pub open spec fn draw_calls(self) -> Seq<GlCall> {
        seq![
            GlCall::UseProgram { program: self.program },
            GlCall::Uniform1i { location: self.loc_tex, value: 0 },
            GlCall::BindVertexArray { vao: self.vao },
            GlCall::BindBuffer { target: gl::ARRAY_BUFFER, buffer: self.vbo },
            GlCall::ClearColor {
                rgba: [
                    words::EIGHT_TENTHS,
                    words::EIGHT_TENTHS,
                    words::EIGHT_TENTHS,
                    words::THREE_TENTHS,
                ],
            },
            GlCall::Clear { mask: gl::COLOR_BUFFER_BIT },
            GlCall::DrawArrays { mode: gl::TRIANGLES, first: 0, count: NUM_VERTICES },
        ]
    }

    /// Plans one frame.
    pub fn draw(&self) -> (r: Vec<GlCall>)
        ensures
            r@ == self.draw_calls(),
    {
        let mut calls: Vec<GlCall> = Vec::new();
        calls.push(GlCall::UseProgram { program: self.program });
        calls.push(GlCall::Uniform1i { location: self.loc_tex, value: 0 });
        calls.push(GlCall::BindVertexArray { vao: self.vao });
        calls.push(GlCall::BindBuffer { target: gl::ARRAY_BUFFER, buffer: self.vbo });
        calls.push(
            GlCall::ClearColor {
                rgba: [
                    words::EIGHT_TENTHS,
                    words::EIGHT_TENTHS,
                    words::EIGHT_TENTHS,
                    words::THREE_TENTHS,
                ],
            },
        );
        calls.push(GlCall::Clear { mask: gl::COLOR_BUFFER_BIT });
        calls.push(GlCall::DrawArrays { mode: gl::TRIANGLES, first: 0, count: NUM_VERTICES });
        assert(calls@ =~= self.draw_calls());
        calls
    }

    /// Plans the viewport for a window of `width` by `height` pixels.
    pub fn resize(&self, width: i32, height: i32) -> (r: Vec<GlCall>)
        ensures
            r@ == seq![GlCall::Viewport { x: 0, y: 0, width, height }],
    {
        let mut calls: Vec<GlCall> = Vec::new();
        calls.push(GlCall::Viewport { x: 0, y: 0, width, height });
        assert(calls@ =~= seq![GlCall::Viewport { x: 0, y: 0, width, height }]);
        calls
    }

    /// The calls that lay out the vertex array `vao` over the buffer `vbo`,
    /// with positions at `loc_xyz` and texture coordinates at `loc_uv`, and
    /// bind `id_tex` as the texture of unit 0.
    pub open spec fn init_calls(vao: u32, vbo: u32, loc_xyz: i32, loc_uv: i32, id_tex: u32) -> Seq<
        GlCall,
    > {
        seq![
            GlCall::BindVertexArray { vao },
            GlCall::BindBuffer { target: gl::ARRAY_BUFFER, buffer: vbo },
            GlCall::VertexAttribPointer {
                index: unsigned(loc_xyz) as u32,
                size: 2,
                kind: gl::FLOAT,
                normalized: gl::FALSE,
                stride: STRIDE,
                offset: 0,
            },
            GlCall::VertexAttribPointer {
                index: unsigned(loc_uv) as u32,
                size: 2,
                kind: gl::FLOAT,
                normalized: gl::FALSE,
                stride: STRIDE,
                offset: UV_OFFSET,
            },
            GlCall::EnableVertexAttribArray { index: unsigned(loc_xyz) as u32 },
            GlCall::EnableVertexAttribArray { index: unsigned(loc_uv) as u32 },
            GlCall::Enable { cap: gl::TEXTURE_2D },
            GlCall::ActiveTexture { texture: gl::TEXTURE0 },
            GlCall::BindTexture { target: gl::TEXTURE_2D, texture: id_tex },
        ]
    }

    /// Takes the linked `program`, the locations of its two attributes and of
    /// its sampler, and the fresh names `vao`, `vbo` and `id_tex`. Where the
    /// program knows all three names, records the objects and plans their
    /// setup. Where it does not, says which name is missing first; the
    /// program is recorded all the same. The sampler's location is checked
    /// and not recorded.
    pub fn init_gl(
        &mut self,
        program: u32,
        loc_xyz: i32,
        loc_uv: i32,
        loc_tex: i32,
        vao: u32,
        vbo: u32,
        id_tex: u32,
    ) -> (r: Result<Vec<GlCall>, MissingLocation>)
        ensures
            match missing(loc_xyz, loc_uv, loc_tex) {
                Some(name) => r == Err::<Vec<GlCall>, MissingLocation>(name) && *final(self) == (
                Drawer { program, ..*old(self) }),
                None => r is Ok && r->Ok_0@ == Self::init_calls(vao, vbo, loc_xyz, loc_uv, id_tex)
                    && *final(self) == (Drawer {
                    program,
                    vao,
                    vbo,
                    loc_tex: old(self).loc_tex,
                    id_tex,
                }),
            },
    {
        self.program = program;
        if loc_xyz == -1 {
            return Err(MissingLocation::Position);
        }
        if loc_uv == -1 {
            return Err(MissingLocation::TexIn);
        }
        if loc_tex == -1 {
            return Err(MissingLocation::Sampler);
        }
        self.vao = vao;
        self.vbo = vbo;
        self.id_tex = id_tex;
        let index_xyz: u32 = as_unsigned(loc_xyz);
        let index_uv: u32 = as_unsigned(loc_uv);
        let mut calls: Vec<GlCall> = Vec::new();
        calls.push(GlCall::BindVertexArray { vao });
        calls.push(GlCall::BindBuffer { target: gl::ARRAY_BUFFER, buffer: vbo });
        calls.push(
            GlCall::VertexAttribPointer {
                index: index_xyz,
                size: 2,
                kind: gl::FLOAT,
                normalized: gl::FALSE,
                stride: STRIDE,
                offset: 0,
            },
        );
        calls.push(
            GlCall::VertexAttribPointer {
                index: index_uv,
                size: 2,
                kind: gl::FLOAT,
                normalized: gl::FALSE,
                stride: STRIDE,
                offset: UV_OFFSET,
            },
        );
        calls.push(GlCall::EnableVertexAttribArray { index: index_xyz });
        calls.push(GlCall::EnableVertexAttribArray { index: index_uv });
        calls.push(GlCall::Enable { cap: gl::TEXTURE_2D });
        calls.push(GlCall::ActiveTexture { texture: gl::TEXTURE0 });
        calls.push(GlCall::BindTexture { target: gl::TEXTURE_2D, texture: id_tex });
        assert(calls@ =~= Self::init_calls(vao, vbo, loc_xyz, loc_uv, id_tex));
        Ok(calls)
    }

    /// Plans the release of every object that the drawer owns: the program,
    /// the buffer, the vertex array and the texture, each once.
    pub fn delete(&self) -> (r: Vec<GlCall>)
        ensures
            r@ == seq![
                GlCall::DeleteProgram { program: self.program },
                GlCall::DeleteBuffer { buffer: self.vbo },
                GlCall::DeleteVertexArray { vao: self.vao },
                GlCall::DeleteTexture { texture: self.id_tex },
            ],
    {
        let mut calls: Vec<GlCall> = Vec::new();
        calls.push(GlCall::DeleteProgram { program: self.program });
        calls.push(GlCall::DeleteBuffer { buffer: self.vbo });
        calls.push(GlCall::DeleteVertexArray { vao: self.vao });
        calls.push(GlCall::DeleteTexture { texture: self.id_tex });
        assert(calls@ =~= seq![
            GlCall::DeleteProgram { program: self.program },
            GlCall::DeleteBuffer { buffer: self.vbo },
            GlCall::DeleteVertexArray { vao: self.vao },
            GlCall::DeleteTexture { texture: self.id_tex },
        ]);
        calls
    }
}

} // verus!
