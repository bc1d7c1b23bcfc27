use del_gl::drawer_mesh::{Drawer, ElementBufferObject, VertexError};
use del_gl::gl;
use del_gl::gl::GlCall;
use del_gl::words::negate;

fn words16(start: f32) -> [u32; 16] {
    let mut m = [0u32; 16];
    for i in 0..16 {
        m[i] = (start + i as f32).to_bits();
    }
    m
}

fn red() -> [u32; 3] {
    [1.0f32.to_bits(), 0.0f32.to_bits(), 0.0f32.to_bits()]
}

fn compiled() -> Drawer {
    let mut d = Drawer::new();
    d.compile_shader(7, 2, 3, 4, Some(11));
    d
}

#[test]
fn mesh_new_owns_nothing() {
    let d = Drawer::new();
    assert_eq!(d.program, 0);
    assert_eq!(d.ndim, 0);
    assert_eq!(d.num_point, 0);
    assert_eq!(d.vao, 0);
    assert_eq!(d.loc_color, -1);
    assert_eq!(d.loc_mat_modelview, -1);
    assert_eq!(d.loc_mat_projection, -1);
    assert!(d.ebos.is_empty());
    assert!(d.vbos.is_empty());
}

#[test]
fn mesh_compile_shader_records_and_binds() {
    let mut d = Drawer::new();
    let calls = d.compile_shader(7, 2, 3, 4, Some(11));
    assert_eq!(calls, vec![GlCall::BindVertexArray { vao: 11 }]);
    assert_eq!((d.program, d.loc_mat_modelview, d.loc_mat_projection, d.loc_color, d.vao), (7, 2, 3, 4, 11));
}

#[test]
fn mesh_compile_shader_without_vertex_arrays() {
    let mut d = Drawer::new();
    d.vao = 5;
    let calls = d.compile_shader(7, 2, 3, -1, None);
    assert!(calls.is_empty());
    assert_eq!(d.vao, 5);
    assert_eq!(d.loc_color, -1);
}

#[test]
fn mesh_add_element_uploads_indices() {
    let mut d = compiled();
    let elem2vtx: Vec<usize> = vec![0, 1, 2, 0, 2, 3];
    let upload = d.add_element(21, gl::TRIANGLES, &elem2vtx, red()).unwrap();
    assert_eq!(upload.indices, vec![0u32, 1, 2, 0, 2, 3]);
    assert_eq!(
        upload.calls,
        vec![
            GlCall::BindVertexArray { vao: 11 },
            GlCall::BindBuffer { target: gl::ELEMENT_ARRAY_BUFFER, buffer: 21 },
            GlCall::BufferData {
                target: gl::ELEMENT_ARRAY_BUFFER,
                size: 24,
                data: 0,
                usage: gl::STATIC_DRAW,
            },
        ]
    );
    assert_eq!(
        d.ebos,
        vec![ElementBufferObject { mode: gl::TRIANGLES, elem_size: 6, ebo: 21, color: red() }]
    );
}

#[test]
fn mesh_add_element_appends_in_order() {
    let mut d = compiled();
    d.add_element(21, gl::TRIANGLES, &vec![0, 1, 2], red()).unwrap();
    d.add_element(22, 1, &vec![0, 1], [0, 0, 0]).unwrap();
    assert_eq!(d.ebos.len(), 2);
    assert_eq!(d.ebos[0].ebo, 21);
    assert_eq!(d.ebos[1], ElementBufferObject { mode: 1, elem_size: 2, ebo: 22, color: [0, 0, 0] });
}

#[test]
fn mesh_update_vertex_lays_out_points() {
    let mut d = compiled();
    let calls = d.update_vertex(31, 0, 12, 3).unwrap();
    assert_eq!(d.ndim, 3);
    assert_eq!(d.num_point, 4);
    assert_eq!(
        calls,
        vec![
            GlCall::BindVertexArray { vao: 11 },
            GlCall::BindBuffer { target: gl::ARRAY_BUFFER, buffer: 31 },
            GlCall::BufferData { target: gl::ARRAY_BUFFER, size: 48, data: 0, usage: gl::STATIC_DRAW },
            GlCall::EnableVertexAttribArray { index: 0 },
            GlCall::VertexAttribPointer {
                index: 0,
                size: 3,
                kind: gl::FLOAT,
                normalized: 0,
                stride: 12,
                offset: 0,
            },
        ]
    );
}

#[test]
fn mesh_update_vertex_rounds_points_toward_zero() {
    let mut d = compiled();
    d.update_vertex(31, 0, 13, 3).unwrap();
    assert_eq!(d.num_point, 4);
    d.update_vertex(31, 0, 13, -3).unwrap();
    assert_eq!(d.num_point, -4);
    assert_eq!(d.ndim, -3);
    d.update_vertex(31, 0, 2, 3).unwrap();
    assert_eq!(d.num_point, 0);
}

#[test]
fn mesh_update_vertex_unknown_attribute() {
    let mut d = compiled();
    let calls = d.update_vertex(31, -1, 4, 2).unwrap();
    assert_eq!(calls[3], GlCall::EnableVertexAttribArray { index: 0xFFFF_FFFF });
    assert_eq!(
        calls[4],
        GlCall::VertexAttribPointer {
            index: 0xFFFF_FFFF,
            size: 2,
            kind: gl::FLOAT,
            normalized: 0,
            stride: 8,
            offset: 0,
        }
    );
}

#[test]
fn mesh_update_vertex_refuses_dimension_zero() {
    let mut d = compiled();
    d.update_vertex(31, 0, 12, 3).unwrap();
    let before = (d.ndim, d.num_point);
    assert_eq!(d.update_vertex(32, 0, 12, 0), Err(VertexError::Dimension));
    assert_eq!((d.ndim, d.num_point), before);
}

#[test]
fn mesh_update_vertex_refuses_quotient_overflow() {
    let mut d = compiled();
    assert_eq!(d.update_vertex(32, 0, 0x8000_0000, -1), Err(VertexError::Dimension));
}

#[test]
fn mesh_update_vertex_refuses_size() {
    let mut d = compiled();
    assert_eq!(d.update_vertex(32, 0, usize::MAX, 3), Err(VertexError::Size));
}

#[test]
fn mesh_update_vertex_refuses_stride() {
    let mut d = compiled();
    assert_eq!(d.update_vertex(32, 0, 12, 0x2000_0000), Err(VertexError::Stride));
    assert_eq!(d.update_vertex(32, 0, 12, i32::MIN), Err(VertexError::Stride));
    assert!(d.update_vertex(32, 0, 12, 0x1FFF_FFFF).is_ok());
    assert_eq!(d.ndim, 0x1FFF_FFFF);
}

#[test]
fn mesh_draw_without_groups_binds_only() {
    let d = compiled();
    let calls = d.draw(&words16(1.0), &words16(20.0));
    assert_eq!(calls, vec![GlCall::UseProgram { program: 7 }, GlCall::BindVertexArray { vao: 11 }]);
}

#[test]
fn mesh_draw_one_draw_per_group() {
    let mut d = compiled();
    d.add_element(21, gl::TRIANGLES, &vec![0, 1, 2, 0, 2, 3], red()).unwrap();
    d.add_element(22, 1, &vec![0, 1], [5, 6, 7]).unwrap();
    let mv = words16(1.0);
    let prj = words16(20.0);
    let calls = d.draw(&mv, &prj);
    let want = vec![
        GlCall::UseProgram { program: 7 },
        GlCall::BindVertexArray { vao: 11 },
        GlCall::Uniform3f { location: 4, value: red() },
        GlCall::UniformMatrix4fv { location: 2, count: 1, transpose: 0, value: mv },
        GlCall::UniformMatrix4fv { location: 3, count: 1, transpose: 0, value: prj },
        GlCall::BindBuffer { target: gl::ELEMENT_ARRAY_BUFFER, buffer: 21 },
        GlCall::DrawElements { mode: gl::TRIANGLES, count: 6, kind: gl::UNSIGNED_INT, offset: 0 },
        GlCall::Uniform3f { location: 4, value: [5, 6, 7] },
        GlCall::UniformMatrix4fv { location: 2, count: 1, transpose: 0, value: mv },
        GlCall::UniformMatrix4fv { location: 3, count: 1, transpose: 0, value: prj },
        GlCall::BindBuffer { target: gl::ELEMENT_ARRAY_BUFFER, buffer: 22 },
        GlCall::DrawElements { mode: 1, count: 2, kind: gl::UNSIGNED_INT, offset: 0 },
    ];
    assert_eq!(calls, want);
    let draws = calls.iter().filter(|c| matches!(c, GlCall::DrawElements { .. })).count();
    assert_eq!(draws, d.ebos.len());
    assert_eq!(calls.len(), 2 + 5 * d.ebos.len());
}

#[test]
fn mesh_draw_points_flips_depth() {
    let mut d = compiled();
    d.update_vertex(31, 0, 12, 3).unwrap();
    let mv = words16(1.0);
    let prj = words16(20.0);
    let mut flipped = prj;
    for i in [2, 6, 10, 14] {
        flipped[i] = negate(prj[i]);
    }
    assert_eq!(
        d.draw_points(&mv, &prj),
        vec![
            GlCall::UseProgram { program: 7 },
            GlCall::BindVertexArray { vao: 11 },
            GlCall::Uniform3f { location: 4, value: [0, 0, 0] },
            GlCall::UniformMatrix4fv { location: 2, count: 1, transpose: 0, value: mv },
            GlCall::UniformMatrix4fv { location: 3, count: 1, transpose: 0, value: flipped },
            GlCall::DrawArrays { mode: gl::POINTS, first: 0, count: 4 },
        ]
    );
}

#[test]
fn mesh_update_vertex_records_each_buffer() {
    let mut d = compiled();
    d.update_vertex(31, 0, 12, 3).unwrap();
    d.update_vertex(32, 0, 12, 3).unwrap();
    assert_eq!(d.vbos, vec![31, 32]);
    assert_eq!(d.update_vertex(33, 0, 12, 0), Err(VertexError::Dimension));
    assert_eq!(d.vbos, vec![31, 32]);
}

#[test]
fn mesh_delete_of_a_new_drawer() {
    assert_eq!(
        Drawer::new().delete(),
        vec![GlCall::DeleteProgram { program: 0 }, GlCall::DeleteVertexArray { vao: 0 }]
    );
}

#[test]
fn mesh_delete_releases_every_object_once() {
    let mut d = compiled();
    d.update_vertex(31, 0, 12, 3).unwrap();
    d.add_element(21, gl::TRIANGLES, &vec![0, 1, 2], red()).unwrap();
    d.update_vertex(32, 0, 12, 3).unwrap();
    d.add_element(22, 1, &vec![0, 1], red()).unwrap();
    assert_eq!(
        d.delete(),
        vec![
            GlCall::DeleteProgram { program: 7 },
            GlCall::DeleteBuffer { buffer: 31 },
            GlCall::DeleteBuffer { buffer: 32 },
            GlCall::DeleteBuffer { buffer: 21 },
            GlCall::DeleteBuffer { buffer: 22 },
            GlCall::DeleteVertexArray { vao: 11 },
        ]
    );
}
