//! Draws the elements of a mesh, each group of elements in one colour or
//! with the texture of unit 0.

use vstd::prelude::*;
use crate::cast::{
    as_count,
    as_unsigned,
    byte_size,
    count,
    index,
    spec_byte_size,
    toward_zero,
    unsigned,
};
use crate::drawer_mesh::{
    element_upload,
    layout_vertices,
    upload_elements,
    vertex_calls,
    vertex_error,
    ElementUpload,
    VertexError,
};
use crate::gl;
use crate::gl::{buffer_releases, push_buffer_releases, GlCall};
use crate::words::{z_flip, z_flipped, Mat4};

verus! {

/// The location of the attribute that takes the texture coordinates.
pub const UV_LOCATION: u32 = 1;

/// Bytes from one texture coordinate to the next: two numbers.
pub const UV_STRIDE: i32 = 8;

/// One group of elements: a buffer of indices and how it is drawn.
#[derive(Clone, Copy, Debug, PartialEq, Eq)]
pub struct ElementBufferObject {
    /// The kind of primitive.
    pub mode: u32,
    /// Indices in the buffer.
    pub elem_size: usize,
    /// The buffer's name.
    pub ebo: u32,
    /// Red, green and blue; `None` for a group that is textured.
    pub color: Option<[u32; 3]>,
}

/// The names under which the drawer knows its objects, and its groups of
/// elements in the order in which they were added.
#[derive(Debug, PartialEq, Eq)]
pub struct Drawer {
    pub program: u32,
    /// Numbers per vertex.
    pub ndim: i32,
    pub num_point: i32,
    pub vao: u32,
    /// Locations of the uniforms; `-1` is one that the program does not know.
    pub loc_texture: i32,
    pub loc_color: i32,
    pub loc_is_texture: i32,
    pub loc_mat_modelview: i32,
    pub loc_mat_projection: i32,
    pub ebos: Vec<ElementBufferObject>,
    /// The buffers of vertex data, in the order in which they were made.
    pub vbos: Vec<u32>,
}

/// The calls that fill the buffer `vbo` with `bytes` bytes of texture
/// coordinates from buffer 0, two numbers a vertex, for the vertex array
/// `vao`. The attribute found at `location` is switched on; the layout is
/// given to the attribute at `UV_LOCATION`, where the shader declares it.
pub open spec fn texture_uv_calls(vao: u32, vbo: u32, location: i32, bytes: isize) -> Seq<GlCall> {
    seq![
        GlCall::BindVertexArray { vao },
        GlCall::BindBuffer { target: gl::ARRAY_BUFFER, buffer: vbo },
        GlCall::BufferData {
            target: gl::ARRAY_BUFFER,
            size: bytes,
            data: 0,
            usage: gl::STATIC_DRAW,
        },
        GlCall::EnableVertexAttribArray { index: unsigned(location) as u32 },
        GlCall::VertexAttribPointer {
            index: UV_LOCATION,
            size: 2,
            kind: gl::FLOAT,
            normalized: gl::FALSE,
            stride: UV_STRIDE,
            offset: 0,
        },
    ]
}

impl Drawer {
    /// A drawer that owns no object yet.
    pub fn new() -> (r: Self)
        ensures
            r.program == 0,
            r.ndim == 0,
            r.num_point == 0,
            r.vao == 0,
            r.loc_texture == -1,
            r.loc_color == -1,
            r.loc_is_texture == -1,
            r.loc_mat_modelview == -1,
            r.loc_mat_projection == -1,
            r.ebos@ == Seq::<ElementBufferObject>::empty(),
            r.vbos@ == Seq::<u32>::empty(),
    {
        Drawer {
            program: 0,
            ndim: 0,
            num_point: 0,
            vao: 0,
            loc_texture: -1,
            loc_color: -1,
            loc_is_texture: -1,
            loc_mat_modelview: -1,
            loc_mat_projection: -1,
            ebos: Vec::new(),
            vbos: Vec::new(),
        }
    }

    /// Records the linked `program` and the locations of its uniforms
    /// `matMV`, `matPrj`, `myTextureSampler`, `color` and `is_texture`. `vao`
    /// is a fresh vertex array where the context has vertex arrays: it is
    /// recorded and bound.
    pub fn compile_shader(
        &mut self,
        program: u32,
        loc_mat_modelview: i32,
        loc_mat_projection: i32,
        loc_texture: i32,
        loc_color: i32,
        loc_is_texture: i32,
        vao: Option<u32>,
    ) -> (r: Vec<GlCall>)
        ensures
            final(self).program == program,
            final(self).loc_mat_modelview == loc_mat_modelview,
            final(self).loc_mat_projection == loc_mat_projection,
            final(self).loc_texture == loc_texture,
            final(self).loc_color == loc_color,
            final(self).loc_is_texture == loc_is_texture,
            final(self).vao == if vao is Some {
                vao->Some_0
            } else {
                old(self).vao
            },
            final(self).ndim == old(self).ndim,
            final(self).num_point == old(self).num_point,
            final(self).ebos@ == old(self).ebos@,
            final(self).vbos@ == old(self).vbos@,
            r@ == if vao is Some {
                seq![GlCall::BindVertexArray { vao: vao->Some_0 }]
            } else {
                Seq::<GlCall>::empty()
            },
    {
        self.program = program;
        self.loc_mat_modelview = loc_mat_modelview;
        self.loc_mat_projection = loc_mat_projection;
        self.loc_texture = loc_texture;
        self.loc_color = loc_color;
        self.loc_is_texture = loc_is_texture;
        let mut calls: Vec<GlCall> = Vec::new();
        match vao {
            Some(name) => {
                self.vao = name;
                calls.push(GlCall::BindVertexArray { vao: name });
                assert(calls@ =~= seq![GlCall::BindVertexArray { vao: name }]);
            },
            None => {},
        }
        calls
    }

    /// Adds a group of elements that is drawn as `mode` from the fresh buffer
    /// `ebo`, in `color` or, without one, textured. The vertex numbers in
    /// `elem2vtx` are narrowed to indices of 32 bits, whose upload is planned.
    /// `None`, and nothing added, where the indices take more bytes than a
    /// buffer can be given.
    pub fn add_element(
        &mut self,
        ebo: u32,
        mode: u32,
        elem2vtx: &Vec<usize>,
        color: Option<[u32; 3]>,
    ) -> (r: Option<ElementUpload>)
        ensures
            r is Some <==> spec_byte_size(elem2vtx.len()) is Some,
            r is None ==> *final(self) == *old(self),
            r matches Some(upload) ==> {
                &&& upload.indices@.len() == elem2vtx@.len()
                &&& forall|k: int|
                    0 <= k < elem2vtx@.len() ==> upload.indices@[k] == index(
                        #[trigger] elem2vtx@[k],
                    )
                &&& upload.calls@ == element_upload(
                    old(self).vao,
                    ebo,
                    spec_byte_size(elem2vtx.len())->Some_0,
                )
                &&& final(self).ebos@ == old(self).ebos@.push(
                    ElementBufferObject { mode, elem_size: elem2vtx.len(), ebo, color },
                )
                &&& final(self).vbos@ == old(self).vbos@
                &&& final(self).program == old(self).program
                &&& final(self).ndim == old(self).ndim
                &&& final(self).num_point == old(self).num_point
                &&& final(self).vao == old(self).vao
                &&& final(self).loc_texture == old(self).loc_texture
                &&& final(self).loc_color == old(self).loc_color
                &&& final(self).loc_is_texture == old(self).loc_is_texture
                &&& final(self).loc_mat_modelview == old(self).loc_mat_modelview
                &&& final(self).loc_mat_projection == old(self).loc_mat_projection
            },
    {
        let upload = match upload_elements(self.vao, ebo, elem2vtx) {
            Some(upload) => upload,
            None => {
                return None;
            },
        };
        self.ebos.push(ElementBufferObject { mode, elem_size: elem2vtx.len(), ebo, color });
        Some(upload)
    }

    /// Takes `num_values` coordinates of vertices of `ndim` numbers each, for
    /// the fresh buffer `vbo`, to be read by the attribute `position`, whose
    /// location is `pos_attrib`. Records the buffer, the dimension and the
    /// number of points, which is the quotient rounded toward zero, and plans
    /// the upload. On an error nothing is recorded.
    pub fn update_vertex(&mut self, vbo: u32, pos_attrib: i32, num_values: usize, ndim: i32) -> (r:
        Result<Vec<GlCall>, VertexError>)
        ensures
            match vertex_error(num_values, ndim) {
                Some(e) => r == Err::<Vec<GlCall>, VertexError>(e) && *final(self) == *old(self),
                None => {
                    &&& r is Ok
                    &&& r->Ok_0@ == vertex_calls(
                        old(self).vao,
                        vbo,
                        pos_attrib,
                        spec_byte_size(num_values)->Some_0,
                        ndim,
                    )
                    &&& final(self).ndim == ndim
                    &&& final(self).num_point == toward_zero(count(num_values), ndim as int)
                    &&& final(self).program == old(self).program
                    &&& final(self).vao == old(self).vao
                    &&& final(self).loc_texture == old(self).loc_texture
                    &&& final(self).loc_color == old(self).loc_color
                    &&& final(self).loc_is_texture == old(self).loc_is_texture
                    &&& final(self).loc_mat_modelview == old(self).loc_mat_modelview
                    &&& final(self).loc_mat_projection == old(self).loc_mat_projection
                    &&& final(self).ebos@ == old(self).ebos@
                    &&& final(self).vbos@ == old(self).vbos@.push(vbo)
                },
            },
    {
        let layout = match layout_vertices(self.vao, vbo, pos_attrib, num_values, ndim) {
            Ok(layout) => layout,
            Err(e) => {
                return Err(e);
            },
        };
        self.ndim = ndim;
        self.num_point = layout.num_point;
        self.vbos.push(vbo);
        Ok(layout.calls)
    }

    /// Takes `num_values` texture coordinates, two for each vertex, for the
    /// fresh buffer `vbo`; `tex_attrib` is the location of the attribute
    /// `texIn`. Records the buffer and plans the upload. `None`, and nothing
    /// recorded, where the coordinates take more bytes than a buffer can be
    /// given.
    pub fn set_texture_uv(&mut self, vbo: u32, tex_attrib: i32, num_values: usize) -> (r: Option<
        Vec<GlCall>,
    >)
        ensures
            r is Some <==> spec_byte_size(num_values) is Some,
            r is None ==> *final(self) == *old(self),
            r matches Some(calls) ==> {
                &&& calls@ == texture_uv_calls(
                    old(self).vao,
                    vbo,
                    tex_attrib,
                    spec_byte_size(num_values)->Some_0,
                )
                &&& final(self).vbos@ == old(self).vbos@.push(vbo)
                &&& final(self).ebos@ == old(self).ebos@
                &&& final(self).program == old(self).program
                &&& final(self).ndim == old(self).ndim
                &&& final(self).num_point == old(self).num_point
                &&& final(self).vao == old(self).vao
                &&& final(self).loc_texture == old(self).loc_texture
                &&& final(self).loc_color == old(self).loc_color
                &&& final(self).loc_is_texture == old(self).loc_is_texture
                &&& final(self).loc_mat_modelview == old(self).loc_mat_modelview
                &&& final(self).loc_mat_projection == old(self).loc_mat_projection
            },
    {
        let bytes: isize = match byte_size(num_values) {
            Some(bytes) => bytes,
            None => {
                return None;
            },
        };
        let mut calls: Vec<GlCall> = Vec::new();
        calls.push(GlCall::BindVertexArray { vao: self.vao });
        calls.push(GlCall::BindBuffer { target: gl::ARRAY_BUFFER, buffer: vbo });
        calls.push(
            GlCall::BufferData {
                target: gl::ARRAY_BUFFER,
                size: bytes,
                data: 0,
                usage: gl::STATIC_DRAW,
            },
        );
        calls.push(GlCall::EnableVertexAttribArray { index: as_unsigned(tex_attrib) });
        calls.push(
            GlCall::VertexAttribPointer {
                index: UV_LOCATION,
                size: 2,
                kind: gl::FLOAT,
                normalized: gl::FALSE,
                stride: UV_STRIDE,
                offset: 0,
            },
        );
        assert(calls@ =~= texture_uv_calls(self.vao, vbo, tex_attrib, bytes));
        self.vbos.push(vbo);
        Some(calls)
    }

    /// The names of the buffers of indices, group by group.
    pub open spec fn element_buffers(self) -> Seq<u32> {
        self.ebos@.map_values(|group: ElementBufferObject| group.ebo)
    }

    /// The calls that release every object that the drawer owns, each once:
    /// the program, the buffers of vertex data, the buffers of indices, and
    /// the vertex array.
    pub open spec fn release_calls(self) -> Seq<GlCall> {
        seq![GlCall::DeleteProgram { program: self.program }] + buffer_releases(self.vbos@)
            + buffer_releases(self.element_buffers()) + seq![
            GlCall::DeleteVertexArray { vao: self.vao },
        ]
    }

    /// Plans the release of every object that the drawer owns.
    pub fn delete(&self) -> (r: Vec<GlCall>)
        ensures
            r@ == self.release_calls(),
    {
        let mut names: Vec<u32> = Vec::new();
        let mut k: usize = 0;
        assert(names@ =~= self.ebos@.take(0).map_values(|group: ElementBufferObject| group.ebo));
        while k < self.ebos.len()
            invariant
                k <= self.ebos.len(),
                names@ == self.ebos@.take(k as int).map_values(
                    |group: ElementBufferObject| group.ebo,
                ),
            decreases self.ebos.len() - k,
        {
            names.push(self.ebos[k].ebo);
            assert(self.ebos@.take(k + 1) =~= self.ebos@.take(k as int).push(self.ebos@[k as int]));
            assert(names@ =~= self.ebos@.take(k + 1).map_values(
                |group: ElementBufferObject| group.ebo,
            ));
            k = k + 1;
        }
        assert(self.ebos@.take(self.ebos@.len() as int) =~= self.ebos@);
        let mut calls: Vec<GlCall> = Vec::new();
        calls.push(GlCall::DeleteProgram { program: self.program });
        assert(calls@ =~= seq![GlCall::DeleteProgram { program: self.program }]);
        push_buffer_releases(&mut calls, &self.vbos);
        push_buffer_releases(&mut calls, &names);
        calls.push(GlCall::DeleteVertexArray { vao: self.vao });
        assert(calls@ =~= self.release_calls());
        calls
    }

    /// The release names each buffer that was recorded, and nothing that was
    /// not: one call for the program, one for each buffer of vertex data, one
    /// for each group, one for the vertex array.
    pub proof fn lemma_release_calls_layout(self)
        ensures
            self.release_calls().len() == 2 + self.vbos@.len() + self.ebos@.len(),
            self.release_calls()[0] == (GlCall::DeleteProgram { program: self.program }),
            forall|k: int|
                0 <= k < self.vbos@.len() ==> #[trigger] self.release_calls()[1 + k] == (
                GlCall::DeleteBuffer { buffer: self.vbos@[k] }),
            forall|k: int|
                0 <= k < self.ebos@.len() ==> #[trigger] self.release_calls()[1 + self.vbos@.len()
                    + k] == (GlCall::DeleteBuffer { buffer: self.ebos@[k].ebo }),
            self.release_calls().last() == (GlCall::DeleteVertexArray { vao: self.vao }),
    {
    }

    /// The calls that choose between colour and texture for one group.
    pub open spec fn paint_calls(self, ebo: ElementBufferObject) -> Seq<GlCall> {
        match ebo.color {
            Some(color) => seq![
                GlCall::Uniform1i { location: self.loc_is_texture, value: 0 },
                GlCall::Uniform3f { location: self.loc_color, value: color },
            ],
            None => seq![GlCall::Uniform1i { location: self.loc_is_texture, value: 1 }],
        }
    }

    /// The calls that draw one group of elements: its paint, the two
    /// matrices as given, its buffer, and the draw itself.
    pub open spec fn element_calls(
        self,
        ebo: ElementBufferObject,
        mat_modelview: Mat4,
        mat_projection: Mat4,
    ) -> Seq<GlCall> {
        self.paint_calls(ebo) + seq![
            GlCall::UniformMatrix4fv {
                location: self.loc_mat_modelview,
                count: 1,
                transpose: gl::FALSE,
                value: mat_modelview,
            },
            GlCall::UniformMatrix4fv {
                location: self.loc_mat_projection,
                count: 1,
                transpose: gl::FALSE,
                value: mat_projection,
            },
            GlCall::BindBuffer { target: gl::ELEMENT_ARRAY_BUFFER, buffer: ebo.ebo },
            GlCall::DrawElements {
                mode: ebo.mode,
                count: count(ebo.elem_size) as i32,
                kind: gl::UNSIGNED_INT,
                offset: 0,
            },
        ]
    }

    /// The calls that draw the first `n` groups, in the order in which they
    /// were added.
    pub open spec fn groups_calls(self, n: nat, mat_modelview: Mat4, mat_projection: Mat4) -> Seq<
        GlCall,
    >
        decreases n,
    {
        if n == 0 {
            Seq::empty()
        } else {
            self.groups_calls((n - 1) as nat, mat_modelview, mat_projection) + self.element_calls(
                self.ebos@[n - 1],
                mat_modelview,
                mat_projection,
            )
        }
    }

    /// The calls of one frame: the program and the vertex array are bound,
    /// then every group is drawn under the projection reflected in depth.
    pub open spec fn draw_calls(self, mat_modelview: Mat4, mat_projection: Mat4) -> Seq<GlCall> {
        seq![
            GlCall::UseProgram { program: self.program },
            GlCall::BindVertexArray { vao: self.vao },
        ] + self.groups_calls(self.ebos@.len(), mat_modelview, z_flipped(mat_projection))
    }

    /// Plans one frame under the given matrices.
    pub fn draw(&self, mat_modelview: &Mat4, mat_projection: &Mat4) -> (r: Vec<GlCall>)
        ensures
            r@ == self.draw_calls(*mat_modelview, *mat_projection),
    {
        let mp1: Mat4 = z_flip(mat_projection);
        let mut calls: Vec<GlCall> = Vec::new();
        calls.push(GlCall::UseProgram { program: self.program });
        calls.push(GlCall::BindVertexArray { vao: self.vao });
        let ghost head = calls@;
        assert(head =~= seq![
            GlCall::UseProgram { program: self.program },
            GlCall::BindVertexArray { vao: self.vao },
        ]);
        let mut k: usize = 0;
        while k < self.ebos.len()
            invariant
                k <= self.ebos.len(),
                calls@ == head + self.groups_calls(k as nat, *mat_modelview, mp1),
            decreases self.ebos.len() - k,
        {
            let ebo = &self.ebos[k];
            let ghost before = calls@;
            match ebo.color {
                Some(color) => {
                    calls.push(GlCall::Uniform1i { location: self.loc_is_texture, value: 0 });
                    calls.push(GlCall::Uniform3f { location: self.loc_color, value: color });
                },
                None => {
                    calls.push(GlCall::Uniform1i { location: self.loc_is_texture, value: 1 });
                },
            }
            assert(calls@ =~= before + self.paint_calls(self.ebos@[k as int]));
            calls.push(
                GlCall::UniformMatrix4fv {
                    location: self.loc_mat_modelview,
                    count: 1,
                    transpose: gl::FALSE,
                    value: *mat_modelview,
                },
            );
            calls.push(
                GlCall::UniformMatrix4fv {
                    location: self.loc_mat_projection,
                    count: 1,
                    transpose: gl::FALSE,
                    value: mp1,
                },
            );
            calls.push(GlCall::BindBuffer { target: gl::ELEMENT_ARRAY_BUFFER, buffer: ebo.ebo });
            calls.push(
                GlCall::DrawElements {
                    mode: ebo.mode,
                    count: as_count(ebo.elem_size),
                    kind: gl::UNSIGNED_INT,
                    offset: 0,
                },
            );
            assert(calls@ =~= before + self.element_calls(
                self.ebos@[k as int],
                *mat_modelview,
                mp1,
            ));
            k = k + 1;
        }
        calls
    }

    /// The calls that draw the vertices as points.
    pub open spec fn points_calls(self, mat_modelview: Mat4, mat_projection: Mat4) -> Seq<GlCall> {
        seq![
            GlCall::UseProgram { program: self.program },
            GlCall::BindVertexArray { vao: self.vao },
            GlCall::UniformMatrix4fv {
                location: self.loc_mat_modelview,
                count: 1,
                transpose: gl::FALSE,
                value: mat_modelview,
            },
            GlCall::UniformMatrix4fv {
                location: self.loc_mat_projection,
                count: 1,
                transpose: gl::FALSE,
                value: z_flipped(mat_projection),
            },
            GlCall::DrawArrays { mode: gl::POINTS, first: 0, count: self.num_point },
        ]
    }

    /// Plans a frame of points. The projection is reflected in depth first.
    pub fn draw_points(&self, mat_modelview: &Mat4, mat_projection: &Mat4) -> (r: Vec<GlCall>)
        ensures
            r@ == self.points_calls(*mat_modelview, *mat_projection),
    {
        let mut calls: Vec<GlCall> = Vec::new();
        calls.push(GlCall::UseProgram { program: self.program });
        calls.push(GlCall::BindVertexArray { vao: self.vao });
        calls.push(
            GlCall::UniformMatrix4fv {
                location: self.loc_mat_modelview,
                count: 1,
                transpose: gl::FALSE,
                value: *mat_modelview,
            },
        );
        calls.push(
            GlCall::UniformMatrix4fv {
                location: self.loc_mat_projection,
                count: 1,
                transpose: gl::FALSE,
                value: z_flip(mat_projection),
            },
        );
        calls.push(GlCall::DrawArrays { mode: gl::POINTS, first: 0, count: self.num_point });
        assert(calls@ =~= self.points_calls(*mat_modelview, *mat_projection));
        calls
    }

    /// The number of draws of elements among `calls`.
    pub open spec fn draws_in(calls: Seq<GlCall>) -> nat
        decreases calls.len(),
    {
        if calls.len() == 0 {
            0
        } else {
            Self::draws_in(calls.drop_last()) + if calls.last() is DrawElements {
                1nat
            } else {
                0nat
            }
        }
    }

    /// Every group is drawn once: the calls of the first `n` groups hold `n`
    /// draws, and they end with the draw of the last of them.
    pub proof fn lemma_one_draw_per_group(self, n: nat, mat_modelview: Mat4, mat_projection: Mat4)
        requires
            n <= self.ebos@.len(),
        ensures
            Self::draws_in(self.groups_calls(n, mat_modelview, mat_projection)) == n,
            n > 0 ==> self.groups_calls(n, mat_modelview, mat_projection).last() == (
            GlCall::DrawElements {
                mode: self.ebos@[n - 1].mode,
                count: count(self.ebos@[n - 1].elem_size) as i32,
                kind: gl::UNSIGNED_INT,
                offset: 0,
            }),
        decreases n,
    {
        if n == 0 {
            assert(self.groups_calls(n, mat_modelview, mat_projection).len() == 0);
        } else {
            let m = (n - 1) as nat;
            self.lemma_one_draw_per_group(m, mat_modelview, mat_projection);
            let shorter = self.groups_calls(m, mat_modelview, mat_projection);
            let ebo = self.ebos@[n - 1];
            let paint = self.paint_calls(ebo);
            let last = self.element_calls(ebo, mat_modelview, mat_projection);
            let longer = self.groups_calls(n, mat_modelview, mat_projection);
            assert(longer == shorter + last);
            let c0 = shorter + paint;
            Self::lemma_draws_in_paint(shorter, self, ebo);
            let p = paint.len() as int;
            let c1 = c0.push(last[p]);
            let c2 = c1.push(last[p + 1]);
            let c3 = c2.push(last[p + 2]);
            let c4 = c3.push(last[p + 3]);
            assert(c0 + last.subrange(p, p + 4) =~= longer);
            assert(c1.drop_last() =~= c0);
            assert(Self::draws_in(c1) == Self::draws_in(c0));
            assert(c2.drop_last() =~= c1);
            assert(Self::draws_in(c2) == Self::draws_in(c1));
            assert(c3.drop_last() =~= c2);
            assert(Self::draws_in(c3) == Self::draws_in(c2));
            assert(c4.drop_last() =~= c3);
            assert(Self::draws_in(c4) == Self::draws_in(c3) + 1);
            assert(c4 =~= longer);
        }
    }

    /// Painting a group adds no draw.
    pub proof fn lemma_draws_in_paint(calls: Seq<GlCall>, drawer: Drawer, ebo: ElementBufferObject)
        ensures
            Self::draws_in(calls + drawer.paint_calls(ebo)) == Self::draws_in(calls),
    {
        let paint = drawer.paint_calls(ebo);
        let c1 = calls.push(paint[0]);
        assert(c1.drop_last() =~= calls);
        assert(Self::draws_in(c1) == Self::draws_in(calls));
        if ebo.color is Some {
            let c2 = c1.push(paint[1]);
            assert(c2.drop_last() =~= c1);
            assert(Self::draws_in(c2) == Self::draws_in(c1));
            assert(c2 =~= calls + paint);
        } else {
            assert(c1 =~= calls + paint);
        }
    }
}

} // verus!
