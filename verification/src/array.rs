//! Draws an array of vertices in one colour.

use vstd::prelude::*;
use crate::cast::{as_unsigned, byte_size, spec_byte_size, unsigned};
use crate::gl;
use crate::gl::GlCall;
use crate::words::{z_flip, z_flipped, Mat4};

verus! {

/// Numbers per vertex: x, y and z.
pub const VERTEX_SIZE: i32 = 3;

/// Bytes from one vertex to the next.
pub const STRIDE: i32 = 12;

/// The names under which the drawer knows its objects, and what it draws.
#[derive(Clone, Copy, Debug, PartialEq, Eq)]
pub struct Drawer {
    pub program: u32,
    /// The kind of primitive.
    pub mode: u32,
    /// Vertices drawn.
    pub elem_size: usize,
    pub vao: u32,
    /// The buffer of vertex data.
    pub vbo: u32,
    /// Locations of the uniforms; `-1` is one that the program does not know.
    pub loc_color: i32,
    pub loc_mat_modelview: i32,
    pub loc_mat_projection: i32,
    /// Red, green and blue.
    pub color: [u32; 3],
}

/// The calls that fill the buffer `vb` with `bytes` bytes of buffer 0, bind
/// the vertex array `vao` if there is one, and make the buffer the attribute
/// at `location`, three numbers a vertex, tightly packed.
pub open spec fn initialize_calls(vb: u32, vao: Option<u32>, location: i32, bytes: isize) -> Seq<
    GlCall,
> {
    seq![
        GlCall::BindBuffer { target: gl::ARRAY_BUFFER, buffer: vb },
        GlCall::BufferData {
            target: gl::ARRAY_BUFFER,
            size: bytes,
            data: 0,
            usage: gl::STATIC_DRAW,
        },
    ] + (match vao {
        Some(name) => seq![GlCall::BindVertexArray { vao: name }],
        None => Seq::empty(),
    }) + seq![
        GlCall::VertexAttribPointer {
            index: unsigned(location) as u32,
            size: VERTEX_SIZE,
            kind: gl::FLOAT,
            normalized: gl::FALSE,
            stride: STRIDE,
            offset: 0,
        },
        GlCall::EnableVertexAttribArray { index: unsigned(location) as u32 },
    ]
}

impl Drawer {
    /// Records the linked `program` and the locations of its uniforms
    /// `matMV`, `matPrj` and `color`.
    pub fn compile_shader(
        &mut self,
        program: u32,
        loc_mat_modelview: i32,
        loc_mat_projection: i32,
        loc_color: i32,
    )
        ensures
            *final(self) == (Drawer {
                program,
                loc_mat_modelview,
                loc_mat_projection,
                loc_color,
                ..*old(self)
            }),
    {
        self.program = program;
        self.loc_mat_modelview = loc_mat_modelview;
        self.loc_mat_projection = loc_mat_projection;
        self.loc_color = loc_color;
    }

    /// Takes `num_values` coordinates for the fresh buffer `vb`, which is
    /// recorded, to be read by the attribute `position`, whose location is
    /// `pos_attrib`. `vao` is a fresh vertex array where the context has
    /// vertex arrays: it is recorded and bound. `None`, and nothing recorded,
    /// where the coordinates take more bytes than a buffer can be given.
    pub fn initialize(&mut self, vb: u32, vao: Option<u32>, pos_attrib: i32, num_values: usize) -> (r:
        Option<Vec<GlCall>>)
        ensures
            r is Some <==> spec_byte_size(num_values) is Some,
            r is None ==> *final(self) == *old(self),
            r matches Some(calls) ==> calls@ == initialize_calls(
                vb,
                vao,
                pos_attrib,
                spec_byte_size(num_values)->Some_0,
            ) && *final(self) == (Drawer {
                vbo: vb,
                vao: if vao is Some {
                    vao->Some_0
                } else {
                    old(self).vao
                },
                ..*old(self)
            }),
    {
        let bytes: isize = match byte_size(num_values) {
            Some(bytes) => bytes,
            None => {
                return None;
            },
        };
        let location: u32 = as_unsigned(pos_attrib);
        self.vbo = vb;
        let mut calls: Vec<GlCall> = Vec::new();
        calls.push(GlCall::BindBuffer { target: gl::ARRAY_BUFFER, buffer: vb });
        calls.push(
            GlCall::BufferData {
                target: gl::ARRAY_BUFFER,
                size: bytes,
                data: 0,
                usage: gl::STATIC_DRAW,
            },
        );
        match vao {
            Some(name) => {
                self.vao = name;
                calls.push(GlCall::BindVertexArray { vao: name });
            },
            None => {},
        }
        calls.push(
            GlCall::VertexAttribPointer {
                index: location,
                size: VERTEX_SIZE,
                kind: gl::FLOAT,
                normalized: gl::FALSE,
                stride: STRIDE,
                offset: 0,
            },
        );
        calls.push(GlCall::EnableVertexAttribArray { index: location });
        assert(calls@ =~= initialize_calls(vb, vao, pos_attrib, bytes));
        Some(calls)
    }

    /// Plans the release of every object that the drawer owns: the program,
    /// the buffer and the vertex array, each once.
    pub fn delete(&self) -> (r: Vec<GlCall>)
        ensures
            r@ == seq![
                GlCall::DeleteProgram { program: self.program },
                GlCall::DeleteBuffer { buffer: self.vbo },
                GlCall::DeleteVertexArray { vao: self.vao },
            ],
    {
        let mut calls: Vec<GlCall> = Vec::new();
        calls.push(GlCall::DeleteProgram { program: self.program });
        calls.push(GlCall::DeleteBuffer { buffer: self.vbo });
        calls.push(GlCall::DeleteVertexArray { vao: self.vao });
        assert(calls@ =~= seq![
            GlCall::DeleteProgram { program: self.program },
            GlCall::DeleteBuffer { buffer: self.vbo },
            GlCall::DeleteVertexArray { vao: self.vao },
        ]);
        calls
    }

    /// The calls of one frame: the vertices are drawn in the drawer's colour
    /// under the projection reflected in depth.
    pub open spec fn frame_calls(self, mat_modelview: Mat4, mat_projection: Mat4) -> Seq<GlCall> {
        seq![
            GlCall::UseProgram { program: self.program },
            GlCall::BindVertexArray { vao: self.vao },
            GlCall::Uniform3f { location: self.loc_color, value: self.color },
            GlCall::UniformMatrix4fv {
                location: self.loc_mat_modelview,
                count: 1,
                transpose: gl::FALSE,
                value: mat_modelview,
            },
            GlCall::UniformMatrix4fv {
                location: self.loc_mat_projection,
                count: 1,
                transpose: gl::FALSE,
                value: z_flipped(mat_projection),
            },
            GlCall::DrawArrays { mode: self.mode, first: 0, count: self.elem_size as i32 },
        ]
    }

    /// Plans one frame under the given matrices. `None` where the drawer has
    /// more vertices than one call can draw.
    pub fn draw_frame(&self, mat_modelview: &Mat4, mat_projection: &Mat4) -> (r: Option<
        Vec<GlCall>,
    >)
        ensures
            r is Some <==> self.elem_size <= i32::MAX,
            r matches Some(calls) ==> calls@ == self.frame_calls(*mat_modelview, *mat_projection),
    {
        if self.elem_size > i32::MAX as usize {
            return None;
        }
        let mut calls: Vec<GlCall> = Vec::new();
        calls.push(GlCall::UseProgram { program: self.program });
        calls.push(GlCall::BindVertexArray { vao: self.vao });
        calls.push(GlCall::Uniform3f { location: self.loc_color, value: self.color });
        calls.push(
            GlCall::UniformMatrix4fv {
                location: self.loc_mat_modelview,
                count: 1,
                transpose: gl::FALSE,
                value: *mat_modelview,
            },
        );
        calls.push(
            GlCall::UniformMatrix4fv {
                location: self.loc_mat_projection,
                count: 1,
                transpose: gl::FALSE,
                value: z_flip(mat_projection),
            },
        );
        calls.push(GlCall::DrawArrays { mode: self.mode, first: 0, count: self.elem_size as i32 });
        assert(calls@ =~= self.frame_calls(*mat_modelview, *mat_projection));
        Some(calls)
    }
}

} // verus!
