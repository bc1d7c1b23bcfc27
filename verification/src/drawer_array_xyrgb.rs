//! Draws one triangle whose vertices are interleaved as position (x, y) and
//! colour (red, green, blue).

use vstd::prelude::*;
use crate::cast::{as_unsigned, byte_size, spec_byte_size, unsigned};
use crate::gl;
use crate::gl::GlCall;

verus! {

/// Bytes from one vertex to the next: five numbers.
pub const STRIDE: i32 = 20;

/// Bytes from the start of a vertex to its colour: two numbers.
pub const COLOR_OFFSET: usize = 8;

/// Vertices drawn.
pub const NUM_VERTICES: i32 = 3;

/// The names under which the drawer knows its objects, and the kind of
/// primitive.
#[derive(Clone, Copy, Debug, PartialEq, Eq)]
pub struct Drawer {
    pub program: u32,
    pub mode: u32,
    pub vao: u32,
    /// The buffer of vertex data.
    pub vbo: u32,
}

/// The calls that fill the buffer `vb` with `bytes` bytes of buffer 0, bind
/// the vertex array `vao` if there is one, and lay the buffer out for the
/// attributes at `position` and `color`.
pub open spec fn initialize_calls(
    vb: u32,
    vao: Option<u32>,
    position: i32,
    color: i32,
    bytes: isize,
) -> Seq<GlCall> {
    seq![
        GlCall::BindBuffer { target: gl::ARRAY_BUFFER, buffer: vb },
        GlCall::BufferData {
            target: gl::ARRAY_BUFFER,
            size: bytes,
            data: 0,
            usage: gl::STATIC_DRAW,
        },
    ] + (match vao {
        Some(name) => seq![GlCall::BindVertexArray { vao: name }],
        None => Seq::empty(),
    }) + seq![
        GlCall::VertexAttribPointer {
            index: unsigned(position) as u32,
            size: 2,
            kind: gl::FLOAT,
            normalized: gl::FALSE,
            stride: STRIDE,
            offset: 0,
        },
        GlCall::VertexAttribPointer {
            index: unsigned(color) as u32,
            size: 3,
            kind: gl::FLOAT,
            normalized: gl::FALSE,
            stride: STRIDE,
            offset: COLOR_OFFSET,
        },
        GlCall::EnableVertexAttribArray { index: unsigned(position) as u32 },
        GlCall::EnableVertexAttribArray { index: unsigned(color) as u32 },
    ]
}

impl Drawer {
    /// Records the linked `program`.
    pub fn compile_shader(&mut self, program: u32)
        ensures
            *final(self) == (Drawer { program, ..*old(self) }),
    {
        self.program = program;
    }

    /// Takes `num_values` numbers for the fresh buffer `vb`, which is
    /// recorded, and plans their upload and their layout for the attributes
    /// `position` and `color`, whose locations are `pos_attrib` and
    /// `color_attrib`. `vao` is a fresh vertex array where the context has
    /// vertex arrays: it is recorded and bound. `None`, and nothing recorded,
    /// where the numbers take more bytes than a buffer can be given.
    pub fn initialize(
        &mut self,
        vb: u32,
        vao: Option<u32>,
        pos_attrib: i32,
        color_attrib: i32,
        num_values: usize,
    ) -> (r: Option<Vec<GlCall>>)
        ensures
            r is Some <==> spec_byte_size(num_values) is Some,
            r is None ==> *final(self) == *old(self),
            r matches Some(calls) ==> calls@ == initialize_calls(
                vb,
                vao,
                pos_attrib,
                color_attrib,
                spec_byte_size(num_values)->Some_0,
            ) && *final(self) == (Drawer {
                vbo: vb,
                vao: if vao is Some {
                    vao->Some_0
                } else {
                    old(self).vao
                },
                ..*old(self)
            }),
    {
        let bytes: isize = match byte_size(num_values) {
            Some(bytes) => bytes,
            None => {
                return None;
            },
        };
        let position: u32 = as_unsigned(pos_attrib);
        let color: u32 = as_unsigned(color_attrib);
        self.vbo = vb;
        let mut calls: Vec<GlCall> = Vec::new();
        calls.push(GlCall::BindBuffer { target: gl::ARRAY_BUFFER, buffer: vb });
        calls.push(
            GlCall::BufferData {
                target: gl::ARRAY_BUFFER,
                size: bytes,
                data: 0,
                usage: gl::STATIC_DRAW,
            },
        );
        match vao {
            Some(name) => {
                self.vao = name;
                calls.push(GlCall::BindVertexArray { vao: name });
            },
            None => {},
        }
        calls.push(
            GlCall::VertexAttribPointer {
                index: position,
                size: 2,
                kind: gl::FLOAT,
                normalized: gl::FALSE,
                stride: STRIDE,
                offset: 0,
            },
        );
        calls.push(
            GlCall::VertexAttribPointer {
                index: color,
                size: 3,
                kind: gl::FLOAT,
                normalized: gl::FALSE,
                stride: STRIDE,
                offset: COLOR_OFFSET,
            },
        );
        calls.push(GlCall::EnableVertexAttribArray { index: position });
        calls.push(GlCall::EnableVertexAttribArray { index: color });
        assert(calls@ =~= initialize_calls(vb, vao, pos_attrib, color_attrib, bytes));
        Some(calls)
    }

    /// Plans the release of every object that the drawer owns: the program,
    /// the buffer and the vertex array, each once.
    pub fn delete(&self) -> (r: Vec<GlCall>)
        ensures
            r@ == seq![
                GlCall::DeleteProgram { program: self.program },
                GlCall::DeleteBuffer { buffer: self.vbo },
                GlCall::DeleteVertexArray { vao: self.vao },
            ],
    {
        let mut calls: Vec<GlCall> = Vec::new();
        calls.push(GlCall::DeleteProgram { program: self.program });
        calls.push(GlCall::DeleteBuffer { buffer: self.vbo });
        calls.push(GlCall::DeleteVertexArray { vao: self.vao });
        assert(calls@ =~= seq![
            GlCall::DeleteProgram { program: self.program },
            GlCall::DeleteBuffer { buffer: self.vbo },
            GlCall::DeleteVertexArray { vao: self.vao },
        ]);
        calls
    }

    /// Plans one frame: the first three vertices are drawn.
    pub fn draw_frame(&self) -> (r: Vec<GlCall>)
        ensures
            r@ == seq![
                GlCall::UseProgram { program: self.program },
                GlCall::DrawArrays { mode: self.mode, first: 0, count: NUM_VERTICES },
            ],
    {
        let mut calls: Vec<GlCall> = Vec::new();
        calls.push(GlCall::UseProgram { program: self.program });
        calls.push(GlCall::DrawArrays { mode: self.mode, first: 0, count: NUM_VERTICES });
        assert(calls@ =~= seq![
            GlCall::UseProgram { program: self.program },
            GlCall::DrawArrays { mode: self.mode, first: 0, count: NUM_VERTICES },
        ]);
        calls
    }
}

} // verus!
