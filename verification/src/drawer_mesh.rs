//! Draws the elements of a mesh, each group of elements in one colour.

use vstd::prelude::*;
use crate::cast::{
    as_count,
    as_indices,
    as_unsigned,
    byte_size,
    count,
    index,
    lemma_checked_div,
    spec_byte_size,
    toward_zero,
    unsigned,
};
use crate::gl;
use crate::gl::{buffer_releases, push_buffer_releases, GlCall};
use crate::words::{z_flip, z_flipped, Mat4, ZERO};

verus! {

/// One group of elements: a buffer of indices and how it is drawn.
#[derive(Clone, Copy, Debug, PartialEq, Eq)]
pub struct ElementBufferObject {
    /// The kind of primitive.
    pub mode: u32,
    /// Indices in the buffer.
    pub elem_size: usize,
    /// The buffer's name.
    pub ebo: u32,
    /// Red, green and blue.
    pub color: [u32; 3],
}

/// The names under which the drawer knows its objects, and its groups of
/// elements in the order in which they were added.
#[derive(Debug, PartialEq, Eq)]
pub struct Drawer {
    pub program: u32,
    /// Numbers per vertex.
    pub ndim: i32,
    pub num_point: i32,
    pub vao: u32,
    /// Locations of the uniforms; `-1` is one that the program does not know.
    pub loc_color: i32,
    pub loc_mat_modelview: i32,
    pub loc_mat_projection: i32,
    pub ebos: Vec<ElementBufferObject>,
    /// The buffers of vertex data, in the order in which they were made.
    pub vbos: Vec<u32>,
}

/// The upload of a group of elements.
#[derive(Debug, PartialEq, Eq)]
pub struct ElementUpload {
    /// The indices, which the caller hands over as buffer 0.
    pub indices: Vec<u32>,
    pub calls: Vec<GlCall>,
}

/// Why vertices cannot be laid out.
#[derive(Clone, Copy, Debug, PartialEq, Eq)]
pub enum VertexError {
    /// No number of points follows from the number of values and the
    /// dimension.
    Dimension,
    /// The values take more bytes than a buffer can be given.
    Size,
    /// The bytes of one vertex do not fit the stride.
    Stride,
}

/// Why `num_values` numbers cannot be laid out as vertices of `ndim`
/// numbers, if that is so.
pub open spec fn vertex_error(num_values: usize, ndim: i32) -> Option<VertexError> {
    if ndim == 0 || (count(num_values) == i32::MIN && ndim == -1) {
        Some(VertexError::Dimension)
    } else if spec_byte_size(num_values) is None {
        Some(VertexError::Size)
    } else if ndim * gl::WORD_BYTES > i32::MAX || ndim * gl::WORD_BYTES < i32::MIN {
        Some(VertexError::Stride)
    } else {
        None
    }
}

/// The calls that fill the buffer `vbo` with `bytes` bytes of buffer 0 and
/// make it the attribute at `location` of the vertex array `vao`, `ndim`
/// numbers a vertex, tightly packed.
pub open spec fn vertex_calls(vao: u32, vbo: u32, location: i32, bytes: isize, ndim: i32) -> Seq<
    GlCall,
> {
    seq![
        GlCall::BindVertexArray { vao },
        GlCall::BindBuffer { target: gl::ARRAY_BUFFER, buffer: vbo },
        GlCall::BufferData {
            target: gl::ARRAY_BUFFER,
            size: bytes,
            data: 0,
            usage: gl::STATIC_DRAW,
        },
        GlCall::EnableVertexAttribArray { index: unsigned(location) as u32 },
        GlCall::VertexAttribPointer {
            index: unsigned(location) as u32,
            size: ndim,
            kind: gl::FLOAT,
            normalized: gl::FALSE,
            stride: (ndim * gl::WORD_BYTES) as i32,
            offset: 0,
        },
    ]
}

/// The calls that fill the buffer `ebo` of the vertex array `vao` with
/// `bytes` bytes of indices from buffer 0.
pub open spec fn element_upload(vao: u32, ebo: u32, bytes: isize) -> Seq<GlCall> {
    seq![
        GlCall::BindVertexArray { vao },
        GlCall::BindBuffer { target: gl::ELEMENT_ARRAY_BUFFER, buffer: ebo },
        GlCall::BufferData {
            target: gl::ELEMENT_ARRAY_BUFFER,
            size: bytes,
            data: 0,
            usage: gl::STATIC_DRAW,
        },
    ]
}

/// What the layout of vertices comes to.
#[derive(Debug, PartialEq, Eq)]
pub struct VertexLayout {
    /// The number of points: the number of values by the dimension, rounded
    /// toward zero.
    pub num_point: i32,
    pub calls: Vec<GlCall>,
}

/// Lays out `num_values` coordinates of vertices of `ndim` numbers each in
/// the fresh buffer `vbo` of the vertex array `vao`, to be read by the
/// attribute at `pos_attrib`.
pub fn layout_vertices(vao: u32, vbo: u32, pos_attrib: i32, num_values: usize, ndim: i32) -> (r:
    Result<VertexLayout, VertexError>)
    ensures
        match vertex_error(num_values, ndim) {
            Some(e) => r == Err::<VertexLayout, VertexError>(e),
            None => {
                &&& r is Ok
                &&& r->Ok_0.num_point == toward_zero(count(num_values), ndim as int)
                &&& r->Ok_0.calls@ == vertex_calls(
                    vao,
                    vbo,
                    pos_attrib,
                    spec_byte_size(num_values)->Some_0,
                    ndim,
                )
            },
        },
{
    proof {
        lemma_checked_div(count(num_values) as i32, ndim);
    }
    let num_point: i32 = match as_count(num_values).checked_div(ndim) {
        Some(q) => q,
        None => {
            return Err(VertexError::Dimension);
        },
    };
    let bytes: isize = match byte_size(num_values) {
        Some(bytes) => bytes,
        None => {
            return Err(VertexError::Size);
        },
    };
    let stride: i32 = match ndim.checked_mul(gl::WORD_BYTES as i32) {
        Some(stride) => stride,
        None => {
            return Err(VertexError::Stride);
        },
    };
    let location: u32 = as_unsigned(pos_attrib);
    let mut calls: Vec<GlCall> = Vec::new();
    calls.push(GlCall::BindVertexArray { vao });
    calls.push(GlCall::BindBuffer { target: gl::ARRAY_BUFFER, buffer: vbo });
    calls.push(
        GlCall::BufferData { target: gl::ARRAY_BUFFER, size: bytes, data: 0, usage: gl::STATIC_DRAW },
    );
    calls.push(GlCall::EnableVertexAttribArray { index: location });
    calls.push(
        GlCall::VertexAttribPointer {
            index: location,
            size: ndim,
            kind: gl::FLOAT,
            normalized: gl::FALSE,
            stride,
            offset: 0,
        },
    );
    assert(calls@ =~= vertex_calls(vao, vbo, pos_attrib, bytes, ndim));
    Ok(VertexLayout { num_point, calls })
}

/// Narrows the vertex numbers in `elem2vtx` to indices of 32 bits and plans
/// their upload into the fresh buffer `ebo` of the vertex array `vao`. `None`
/// where the indices take more bytes than a buffer can be given.
pub fn upload_elements(vao: u32, ebo: u32, elem2vtx: &Vec<usize>) -> (r: Option<ElementUpload>)
    ensures
        r is Some <==> spec_byte_size(elem2vtx.len()) is Some,
        r matches Some(upload) ==> {
            &&& upload.indices@.len() == elem2vtx@.len()
            &&& forall|k: int|
                0 <= k < elem2vtx@.len() ==> upload.indices@[k] == index(#[trigger] elem2vtx@[k])
            &&& upload.calls@ == element_upload(vao, ebo, spec_byte_size(elem2vtx.len())->Some_0)
        },
{
    let bytes: isize = match byte_size(elem2vtx.len()) {
        Some(bytes) => bytes,
        None => {
            return None;
        },
    };
    let indices = as_indices(elem2vtx);
    let mut calls: Vec<GlCall> = Vec::new();
    calls.push(GlCall::BindVertexArray { vao });
    calls.push(GlCall::BindBuffer { target: gl::ELEMENT_ARRAY_BUFFER, buffer: ebo });
    calls.push(
        GlCall::BufferData {
            target: gl::ELEMENT_ARRAY_BUFFER,
            size: bytes,
            data: 0,
            usage: gl::STATIC_DRAW,
        },
    );
    assert(calls@ =~= element_upload(vao, ebo, bytes));
    Some(ElementUpload { indices, calls })
}

impl Drawer {
    /// A drawer that owns no object yet.
    pub fn new() -> (r: Self)
        ensures
            r.program == 0,
            r.ndim == 0,
            r.num_point == 0,
            r.vao == 0,
            r.loc_color == -1,
            r.loc_mat_modelview == -1,
            r.loc_mat_projection == -1,
            r.ebos@ == Seq::<ElementBufferObject>::empty(),
            r.vbos@ == Seq::<u32>::empty(),
    {
        Drawer {
            program: 0,
            ndim: 0,
            num_point: 0,
            vao: 0,
            loc_color: -1,
            loc_mat_modelview: -1,
            loc_mat_projection: -1,
            ebos: Vec::new(),
            vbos: Vec::new(),
        }
    }

    /// Records the linked `program` and the locations of its uniforms
    /// `matMV`, `matPrj` and `color`. `vao` is a fresh vertex array where the
    /// context has vertex arrays: it is recorded and bound.
    pub fn compile_shader(
        &mut self,
        program: u32,
        loc_mat_modelview: i32,
        loc_mat_projection: i32,
        loc_color: i32,
        vao: Option<u32>,
    ) -> (r: Vec<GlCall>)
        ensures
            final(self).program == program,
            final(self).loc_mat_modelview == loc_mat_modelview,
            final(self).loc_mat_projection == loc_mat_projection,
            final(self).loc_color == loc_color,
            final(self).vao == if vao is Some {
                vao->Some_0
            } else {
                old(self).vao
            },
            final(self).ndim == old(self).ndim,
            final(self).num_point == old(self).num_point,
            final(self).ebos@ == old(self).ebos@,
            final(self).vbos@ == old(self).vbos@,
            r@ == if vao is Some {
                seq![GlCall::BindVertexArray { vao: vao->Some_0 }]
            } else {
                Seq::<GlCall>::empty()
            },
    {
        self.program = program;
        self.loc_mat_modelview = loc_mat_modelview;
        self.loc_mat_projection = loc_mat_projection;
        self.loc_color = loc_color;
        let mut calls: Vec<GlCall> = Vec::new();
        match vao {
            Some(name) => {
                self.vao = name;
                calls.push(GlCall::BindVertexArray { vao: name });
                assert(calls@ =~= seq![GlCall::BindVertexArray { vao: name }]);
            },
            None => {},
        }
        calls
    }

    /// Adds a group of elements that is drawn as `mode` in `color` from the
    /// fresh buffer `ebo`. The vertex numbers in `elem2vtx` are narrowed to
    /// indices of 32 bits, whose upload is planned. `None`, and nothing
    /// added, where the indices take more bytes than a buffer can be given.
    pub fn add_element(&mut self, ebo: u32, mode: u32, elem2vtx: &Vec<usize>, color: [u32; 3]) -> (r:
        Option<ElementUpload>)
        ensures
            r is Some <==> spec_byte_size(elem2vtx.len()) is Some,
            r is None ==> *final(self) == *old(self),
            r matches Some(upload) ==> {
                &&& upload.indices@.len() == elem2vtx@.len()
                &&& forall|k: int|
                    0 <= k < elem2vtx@.len() ==> upload.indices@[k] == index(
                        #[trigger] elem2vtx@[k],
                    )
                &&& upload.calls@ == element_upload(
                    old(self).vao,
                    ebo,
                    spec_byte_size(elem2vtx.len())->Some_0,
                )
                &&& final(self).ebos@ == old(self).ebos@.push(
                    ElementBufferObject { mode, elem_size: elem2vtx.len(), ebo, color },
                )
                &&& final(self).vbos@ == old(self).vbos@
                &&& final(self).program == old(self).program
                &&& final(self).ndim == old(self).ndim
                &&& final(self).num_point == old(self).num_point
                &&& final(self).vao == old(self).vao
                &&& final(self).loc_color == old(self).loc_color
                &&& final(self).loc_mat_modelview == old(self).loc_mat_modelview
                &&& final(self).loc_mat_projection == old(self).loc_mat_projection
            },
    {
        let upload = match upload_elements(self.vao, ebo, elem2vtx) {
            Some(upload) => upload,
            None => {
                return None;
            },
        };
        self.ebos.push(ElementBufferObject { mode, elem_size: elem2vtx.len(), ebo, color });
        Some(upload)
    }

    /// Takes `num_values` coordinates of vertices of `ndim` numbers each, for
    /// the fresh buffer `vbo`, to be read by the attribute `position`, whose
    /// location is `pos_attrib`. Records the buffer, the dimension and the
    /// number of points, which is the quotient rounded toward zero, and plans
    /// the upload. On an error nothing is recorded.
    pub fn update_vertex(&mut self, vbo: u32, pos_attrib: i32, num_values: usize, ndim: i32) -> (r:
        Result<Vec<GlCall>, VertexError>)
        ensures
            match vertex_error(num_values, ndim) {
                Some(e) => r == Err::<Vec<GlCall>, VertexError>(e) && *final(self) == *old(self),
                None => {
                    &&& r is Ok
                    &&& r->Ok_0@ == vertex_calls(
                        old(self).vao,
                        vbo,
                        pos_attrib,
                        spec_byte_size(num_values)->Some_0,
                        ndim,
                    )
                    &&& final(self).ndim == ndim
                    &&& final(self).num_point == toward_zero(count(num_values), ndim as int)
                    &&& final(self).program == old(self).program
                    &&& final(self).vao == old(self).vao
                    &&& final(self).loc_color == old(self).loc_color
                    &&& final(self).loc_mat_modelview == old(self).loc_mat_modelview
                    &&& final(self).loc_mat_projection == old(self).loc_mat_projection
                    &&& final(self).ebos@ == old(self).ebos@
                    &&& final(self).vbos@ == old(self).vbos@.push(vbo)
                },
            },
    {
        let layout = match layout_vertices(self.vao, vbo, pos_attrib, num_values, ndim) {
            Ok(layout) => layout,
            Err(e) => {
                return Err(e);
            },
        };
        self.ndim = ndim;
        self.num_point = layout.num_point;
        self.vbos.push(vbo);
        Ok(layout.calls)
    }

    /// The names of the buffers of indices, group by group.
    pub open spec fn element_buffers(self) -> Seq<u32> {
        self.ebos@.map_values(|group: ElementBufferObject| group.ebo)
    }

    /// The calls that release every object that the drawer owns, each once:
    /// the program, the buffers of vertex data, the buffers of indices, and
    /// the vertex array.
    pub open spec fn release_calls(self) -> Seq<GlCall> {
        seq![GlCall::DeleteProgram { program: self.program }] + buffer_releases(self.vbos@)
            + buffer_releases(self.element_buffers()) + seq![
            GlCall::DeleteVertexArray { vao: self.vao },
        ]
    }

    /// Plans the release of every object that the drawer owns.
    pub fn delete(&self) -> (r: Vec<GlCall>)
        ensures
            r@ == self.release_calls(),
    {
        let mut names: Vec<u32> = Vec::new();
        let mut k: usize = 0;
        assert(names@ =~= self.ebos@.take(0).map_values(|group: ElementBufferObject| group.ebo));
        while k < self.ebos.len()
            invariant
                k <= self.ebos.len(),
                names@ == self.ebos@.take(k as int).map_values(
                    |group: ElementBufferObject| group.ebo,
                ),
            decreases self.ebos.len() - k,
        {
            names.push(self.ebos[k].ebo);
            assert(self.ebos@.take(k + 1) =~= self.ebos@.take(k as int).push(self.ebos@[k as int]));
            assert(names@ =~= self.ebos@.take(k + 1).map_values(
                |group: ElementBufferObject| group.ebo,
            ));
            k = k + 1;
        }
        assert(self.ebos@.take(self.ebos@.len() as int) =~= self.ebos@);
        let mut calls: Vec<GlCall> = Vec::new();
        calls.push(GlCall::DeleteProgram { program: self.program });
        assert(calls@ =~= seq![GlCall::DeleteProgram { program: self.program }]);
        push_buffer_releases(&mut calls, &self.vbos);
        push_buffer_releases(&mut calls, &names);
        calls.push(GlCall::DeleteVertexArray { vao: self.vao });
        assert(calls@ =~= self.release_calls());
        calls
    }

    /// The release names each buffer that was recorded, and nothing that was
    /// not: one call for the program, one for each buffer of vertex data, one
    /// for each group, one for the vertex array.
    pub proof fn lemma_release_calls_layout(self)
        ensures
            self.release_calls().len() == 2 + self.vbos@.len() + self.ebos@.len(),
            self.release_calls()[0] == (GlCall::DeleteProgram { program: self.program }),
            forall|k: int|
                0 <= k < self.vbos@.len() ==> #[trigger] self.release_calls()[1 + k] == (
                GlCall::DeleteBuffer { buffer: self.vbos@[k] }),
            forall|k: int|
                0 <= k < self.ebos@.len() ==> #[trigger] self.release_calls()[1 + self.vbos@.len()
                    + k] == (GlCall::DeleteBuffer { buffer: self.ebos@[k].ebo }),
            self.release_calls().last() == (GlCall::DeleteVertexArray { vao: self.vao }),
    {
    }

    /// The calls that draw one group of elements: its colour, the two
    /// matrices, its buffer, and the draw itself.
    pub open spec fn element_calls(
        self,
        ebo: ElementBufferObject,
        mat_modelview: Mat4,
        mat_projection: Mat4,
    ) -> Seq<GlCall> {
        seq![
            GlCall::Uniform3f { location: self.loc_color, value: ebo.color },
            GlCall::UniformMatrix4fv {
                location: self.loc_mat_modelview,
                count: 1,
                transpose: gl::FALSE,
                value: mat_modelview,
            },
            GlCall::UniformMatrix4fv {
                location: self.loc_mat_projection,
                count: 1,
                transpose: gl::FALSE,
                value: mat_projection,
            },
            GlCall::BindBuffer { target: gl::ELEMENT_ARRAY_BUFFER, buffer: ebo.ebo },
            GlCall::DrawElements {
                mode: ebo.mode,
                count: count(ebo.elem_size) as i32,
                kind: gl::UNSIGNED_INT,
                offset: 0,
            },
        ]
    }

    /// The calls that draw the first `n` groups, in the order in which they
    /// were added.
    pub open spec fn groups_calls(self, n: nat, mat_modelview: Mat4, mat_projection: Mat4) -> Seq<
        GlCall,
    >
        decreases n,
    {
        if n == 0 {
            Seq::empty()
        } else {
            self.groups_calls((n - 1) as nat, mat_modelview, mat_projection) + self.element_calls(
                self.ebos@[n - 1],
                mat_modelview,
                mat_projection,
            )
        }
    }

    /// The calls of one frame: the program and the vertex array are bound,
    /// then every group is drawn.
    pub open spec fn draw_calls(self, mat_modelview: Mat4, mat_projection: Mat4) -> Seq<GlCall> {
        seq![
            GlCall::UseProgram { program: self.program },
            GlCall::BindVertexArray { vao: self.vao },
        ] + self.groups_calls(self.ebos@.len(), mat_modelview, mat_projection)
    }

    /// Plans one frame under the given matrices.
    pub fn draw(&self, mat_modelview: &Mat4, mat_projection: &Mat4) -> (r: Vec<GlCall>)
        ensures
            r@ == self.draw_calls(*mat_modelview, *mat_projection),
    {
        let mut calls: Vec<GlCall> = Vec::new();
        calls.push(GlCall::UseProgram { program: self.program });
        calls.push(GlCall::BindVertexArray { vao: self.vao });
        let ghost head = calls@;
        assert(head =~= seq![
            GlCall::UseProgram { program: self.program },
            GlCall::BindVertexArray { vao: self.vao },
        ]);
        let mut k: usize = 0;
        while k < self.ebos.len()
            invariant
                k <= self.ebos.len(),
                calls@ == head + self.groups_calls(k as nat, *mat_modelview, *mat_projection),
            decreases self.ebos.len() - k,
        {
            let ebo = &self.ebos[k];
            let ghost before = calls@;
            calls.push(GlCall::Uniform3f { location: self.loc_color, value: ebo.color });
            calls.push(
                GlCall::UniformMatrix4fv {
                    location: self.loc_mat_modelview,
                    count: 1,
                    transpose: gl::FALSE,
                    value: *mat_modelview,
                },
            );
            calls.push(
                GlCall::UniformMatrix4fv {
                    location: self.loc_mat_projection,
                    count: 1,
                    transpose: gl::FALSE,
                    value: *mat_projection,
                },
            );
            calls.push(GlCall::BindBuffer { target: gl::ELEMENT_ARRAY_BUFFER, buffer: ebo.ebo });
            calls.push(
                GlCall::DrawElements {
                    mode: ebo.mode,
                    count: as_count(ebo.elem_size),
                    kind: gl::UNSIGNED_INT,
                    offset: 0,
                },
            );
            assert(calls@ =~= before + self.element_calls(
                self.ebos@[k as int],
                *mat_modelview,
                *mat_projection,
            ));
            k = k + 1;
        }
        calls
    }

    /// The calls that draw the vertices as points, in black.
    pub open spec fn points_calls(self, mat_modelview: Mat4, mat_projection: Mat4) -> Seq<GlCall> {
        seq![
            GlCall::UseProgram { program: self.program },
            GlCall::BindVertexArray { vao: self.vao },
            GlCall::Uniform3f { location: self.loc_color, value: [ZERO, ZERO, ZERO] },
            GlCall::UniformMatrix4fv {
                location: self.loc_mat_modelview,
                count: 1,
                transpose: gl::FALSE,
                value: mat_modelview,
            },
            GlCall::UniformMatrix4fv {
                location: self.loc_mat_projection,
                count: 1,
                transpose: gl::FALSE,
                value: z_flipped(mat_projection),
            },
            GlCall::DrawArrays { mode: gl::POINTS, first: 0, count: self.num_point },
        ]
    }

    /// Plans a frame of points. The projection is reflected in depth first.
    pub fn draw_points(&self, mat_modelview: &Mat4, mat_projection: &Mat4) -> (r: Vec<GlCall>)
        ensures
            r@ == self.points_calls(*mat_modelview, *mat_projection),
    {
        let mut calls: Vec<GlCall> = Vec::new();
        calls.push(GlCall::UseProgram { program: self.program });
        calls.push(GlCall::BindVertexArray { vao: self.vao });
        calls.push(GlCall::Uniform3f { location: self.loc_color, value: [ZERO, ZERO, ZERO] });
        calls.push(
            GlCall::UniformMatrix4fv {
                location: self.loc_mat_modelview,
                count: 1,
                transpose: gl::FALSE,
                value: *mat_modelview,
            },
        );
        calls.push(
            GlCall::UniformMatrix4fv {
                location: self.loc_mat_projection,
                count: 1,
                transpose: gl::FALSE,
                value: z_flip(mat_projection),
            },
        );
        calls.push(GlCall::DrawArrays { mode: gl::POINTS, first: 0, count: self.num_point });
        assert(calls@ =~= self.points_calls(*mat_modelview, *mat_projection));
        calls
    }

    /// A frame has two calls and then five for each group, the last of which
    /// draws the group: every group is drawn once, in the order in which the
    /// groups were added.
    pub proof fn lemma_draw_calls_layout(self, mat_modelview: Mat4, mat_projection: Mat4)
        ensures
            self.draw_calls(mat_modelview, mat_projection).len() == 2 + 5 * self.ebos@.len(),
            forall|k: int|
                0 <= k < self.ebos@.len() ==> #[trigger] self.draw_calls(
                    mat_modelview,
                    mat_projection,
                ).subrange(2 + 5 * k, 7 + 5 * k) == self.element_calls(
                    self.ebos@[k],
                    mat_modelview,
                    mat_projection,
                ),
    {
        self.lemma_groups_calls_layout(self.ebos@.len(), mat_modelview, mat_projection);
        let groups = self.groups_calls(self.ebos@.len(), mat_modelview, mat_projection);
        let all = self.draw_calls(mat_modelview, mat_projection);
        assert forall|k: int| 0 <= k < self.ebos@.len() implies #[trigger] all.subrange(
            2 + 5 * k,
            7 + 5 * k,
        ) == self.element_calls(self.ebos@[k], mat_modelview, mat_projection) by {
            assert(all.subrange(2 + 5 * k, 7 + 5 * k) =~= groups.subrange(5 * k, 5 * k + 5));
        }
    }

    /// The calls of the first `n` groups are five for each, group by group.
    pub proof fn lemma_groups_calls_layout(self, n: nat, mat_modelview: Mat4, mat_projection: Mat4)
        requires
            n <= self.ebos@.len(),
        ensures
            self.groups_calls(n, mat_modelview, mat_projection).len() == 5 * n,
            forall|k: int|
                0 <= k < n ==> #[trigger] self.groups_calls(
                    n,
                    mat_modelview,
                    mat_projection,
                ).subrange(5 * k, 5 * k + 5) == self.element_calls(
                    self.ebos@[k],
                    mat_modelview,
                    mat_projection,
                ),
        decreases n,
    {
        if n > 0 {
            let m = (n - 1) as nat;
            self.lemma_groups_calls_layout(m, mat_modelview, mat_projection);
            let shorter = self.groups_calls(m, mat_modelview, mat_projection);
            let last = self.element_calls(self.ebos@[n - 1], mat_modelview, mat_projection);
            let longer = self.groups_calls(n, mat_modelview, mat_projection);
            assert(longer == shorter + last);
            assert forall|k: int| 0 <= k < n implies #[trigger] longer.subrange(5 * k, 5 * k + 5)
                == self.element_calls(self.ebos@[k], mat_modelview, mat_projection) by {
                if k < m {
                    assert(longer.subrange(5 * k, 5 * k + 5) =~= shorter.subrange(
                        5 * k,
                        5 * k + 5,
                    ));
                } else {
                    assert(longer.subrange(5 * k, 5 * k + 5) =~= last);
                }
            }
        }
    }
}

} // verus!
