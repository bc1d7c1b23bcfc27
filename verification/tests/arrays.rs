use del_gl::array;
use del_gl::drawer_array_xyrgb;
use del_gl::drawer_array_xyzuv;
use del_gl::drawer_array_xyzuv::MissingLocation;
use del_gl::gl;
use del_gl::gl::GlCall;
use del_gl::words::z_flip;

fn words16(start: f32) -> [u32; 16] {
    let mut m = [0u32; 16];
    for i in 0..16 {
        m[i] = (start + i as f32).to_bits();
    }
    m
}

fn array_drawer() -> array::Drawer {
    array::Drawer {
        program: 0,
        mode: gl::TRIANGLES,
        elem_size: 36,
        vao: 0,
        vbo: 0,
        loc_color: -1,
        loc_mat_modelview: -1,
        loc_mat_projection: -1,
        color: [1, 2, 3],
    }
}

#[test]
fn array_compile_shader_records_locations() {
    let mut d = array_drawer();
    d.compile_shader(7, 2, 3, 4);
    assert_eq!(
        d,
        array::Drawer {
            program: 7,
            mode: gl::TRIANGLES,
            elem_size: 36,
            vao: 0,
            vbo: 0,
            loc_color: 4,
            loc_mat_modelview: 2,
            loc_mat_projection: 3,
            color: [1, 2, 3],
        }
    );
}

#[test]
fn array_initialize_with_vertex_array() {
    let mut d = array_drawer();
    let calls = d.initialize(31, Some(11), 0, 108).unwrap();
    assert_eq!(d.vao, 11);
    assert_eq!(d.elem_size, 36);
    assert_eq!(
        calls,
        vec![
            GlCall::BindBuffer { target: gl::ARRAY_BUFFER, buffer: 31 },
            GlCall::BufferData { target: gl::ARRAY_BUFFER, size: 432, data: 0, usage: gl::STATIC_DRAW },
            GlCall::BindVertexArray { vao: 11 },
            GlCall::VertexAttribPointer {
                index: 0,
                size: 3,
                kind: gl::FLOAT,
                normalized: 0,
                stride: 12,
                offset: 0,
            },
            GlCall::EnableVertexAttribArray { index: 0 },
        ]
    );
}

#[test]
fn array_initialize_without_vertex_array() {
    let mut d = array_drawer();
    d.vao = 5;
    let calls = d.initialize(31, None, 2, 9).unwrap();
    assert_eq!(d.vao, 5);
    assert_eq!(calls.len(), 4);
    assert_eq!(calls[3], GlCall::EnableVertexAttribArray { index: 2 });
    assert_eq!(d.initialize(31, Some(1), 2, usize::MAX), None);
    assert_eq!(d.vao, 5);
}

#[test]
fn array_draw_frame_flips_depth() {
    let mut d = array_drawer();
    d.compile_shader(7, 2, 3, 4);
    d.vao = 11;
    let mv = words16(1.0);
    let prj = words16(20.0);
    assert_eq!(
        d.draw_frame(&mv, &prj),
        Some(vec![
            GlCall::UseProgram { program: 7 },
            GlCall::BindVertexArray { vao: 11 },
            GlCall::Uniform3f { location: 4, value: [1, 2, 3] },
            GlCall::UniformMatrix4fv { location: 2, count: 1, transpose: 0, value: mv },
            GlCall::UniformMatrix4fv { location: 3, count: 1, transpose: 0, value: z_flip(&prj) },
            GlCall::DrawArrays { mode: gl::TRIANGLES, first: 0, count: 36 },
        ])
    );
}

#[test]
fn array_draw_frame_refuses_too_many_vertices() {
    let mut d = array_drawer();
    d.elem_size = i32::MAX as usize + 1;
    assert_eq!(d.draw_frame(&words16(1.0), &words16(2.0)), None);
    d.elem_size = i32::MAX as usize;
    let calls = d.draw_frame(&words16(1.0), &words16(2.0)).unwrap();
    assert_eq!(calls[5], GlCall::DrawArrays { mode: gl::TRIANGLES, first: 0, count: i32::MAX });
}

#[test]
fn xyrgb_compile_shader_records_program() {
    let mut d = drawer_array_xyrgb::Drawer { program: 0, mode: gl::TRIANGLES, vao: 0, vbo: 0 };
    d.compile_shader(9);
    assert_eq!(d, drawer_array_xyrgb::Drawer { program: 9, mode: gl::TRIANGLES, vao: 0, vbo: 0 });
}

#[test]
fn xyrgb_initialize_interleaves_position_and_colour() {
    let mut d = drawer_array_xyrgb::Drawer { program: 9, mode: gl::TRIANGLES, vao: 0, vbo: 0 };
    assert_eq!(
        d.initialize(31, Some(11), 0, 1, 15),
        Some(vec![
            GlCall::BindBuffer { target: gl::ARRAY_BUFFER, buffer: 31 },
            GlCall::BufferData { target: gl::ARRAY_BUFFER, size: 60, data: 0, usage: gl::STATIC_DRAW },
            GlCall::BindVertexArray { vao: 11 },
            GlCall::VertexAttribPointer {
                index: 0,
                size: 2,
                kind: gl::FLOAT,
                normalized: 0,
                stride: 20,
                offset: 0,
            },
            GlCall::VertexAttribPointer {
                index: 1,
                size: 3,
                kind: gl::FLOAT,
                normalized: 0,
                stride: 20,
                offset: 8,
            },
            GlCall::EnableVertexAttribArray { index: 0 },
            GlCall::EnableVertexAttribArray { index: 1 },
        ])
    );
    assert_eq!(d.initialize(31, None, 0, 1, 15).unwrap().len(), 6);
    assert_eq!(d.initialize(31, None, 0, 1, usize::MAX), None);
}

#[test]
fn xyrgb_draw_frame_draws_a_triangle() {
    let d = drawer_array_xyrgb::Drawer { program: 9, mode: gl::TRIANGLES, vao: 0, vbo: 0 };
    assert_eq!(
        d.draw_frame(),
        vec![
            GlCall::UseProgram { program: 9 },
            GlCall::DrawArrays { mode: gl::TRIANGLES, first: 0, count: 3 },
        ]
    );
}

#[test]
fn xyzuv_new_owns_nothing() {
    assert_eq!(
        drawer_array_xyzuv::Drawer::new(),
        drawer_array_xyzuv::Drawer { program: 0, vao: 0, vbo: 0, loc_tex: 0, id_tex: 0 }
    );
}

#[test]
fn xyzuv_init_gl_sets_up_objects() {
    let mut d = drawer_array_xyzuv::Drawer::new();
    let calls = d.init_gl(7, 0, 1, 5, 11, 31, 41).unwrap();
    assert_eq!(
        d,
        drawer_array_xyzuv::Drawer { program: 7, vao: 11, vbo: 31, loc_tex: 0, id_tex: 41 }
    );
    assert_eq!(
        calls,
        vec![
            GlCall::BindVertexArray { vao: 11 },
            GlCall::BindBuffer { target: gl::ARRAY_BUFFER, buffer: 31 },
            GlCall::VertexAttribPointer {
                index: 0,
                size: 2,
                kind: gl::FLOAT,
                normalized: 0,
                stride: 16,
                offset: 0,
            },
            GlCall::VertexAttribPointer {
                index: 1,
                size: 2,
                kind: gl::FLOAT,
                normalized: 0,
                stride: 16,
                offset: 8,
            },
            GlCall::EnableVertexAttribArray { index: 0 },
            GlCall::EnableVertexAttribArray { index: 1 },
            GlCall::Enable { cap: gl::TEXTURE_2D },
            GlCall::ActiveTexture { texture: gl::TEXTURE0 },
            GlCall::BindTexture { target: gl::TEXTURE_2D, texture: 41 },
        ]
    );
}

#[test]
fn xyzuv_init_gl_names_first_missing_location() {
    let mut d = drawer_array_xyzuv::Drawer::new();
    assert_eq!(d.init_gl(7, -1, -1, -1, 11, 31, 41), Err(MissingLocation::Position));
    assert_eq!(d.init_gl(7, 0, -1, -1, 11, 31, 41), Err(MissingLocation::TexIn));
    assert_eq!(d.init_gl(7, 0, 1, -1, 11, 31, 41), Err(MissingLocation::Sampler));
    assert_eq!(
        d,
        drawer_array_xyzuv::Drawer { program: 7, vao: 0, vbo: 0, loc_tex: 0, id_tex: 0 }
    );
}

#[test]
fn xyzuv_draw_clears_and_draws_two_triangles() {
    let d = drawer_array_xyzuv::Drawer { program: 7, vao: 11, vbo: 31, loc_tex: 5, id_tex: 41 };
    assert_eq!(
        d.draw(),
        vec![
            GlCall::UseProgram { program: 7 },
            GlCall::Uniform1i { location: 5, value: 0 },
            GlCall::BindVertexArray { vao: 11 },
            GlCall::BindBuffer { target: gl::ARRAY_BUFFER, buffer: 31 },
            GlCall::ClearColor {
                rgba: [0.8f32.to_bits(), 0.8f32.to_bits(), 0.8f32.to_bits(), 0.3f32.to_bits()],
            },
            GlCall::Clear { mask: gl::COLOR_BUFFER_BIT },
            GlCall::DrawArrays { mode: gl::TRIANGLES, first: 0, count: 6 },
        ]
    );
}

#[test]
fn xyzuv_resize_sets_viewport() {
    let d = drawer_array_xyzuv::Drawer::new();
    assert_eq!(d.resize(640, 480), vec![GlCall::Viewport { x: 0, y: 0, width: 640, height: 480 }]);
}

#[test]
fn xyzuv_delete_releases_objects() {
    let d = drawer_array_xyzuv::Drawer { program: 7, vao: 11, vbo: 31, loc_tex: 5, id_tex: 41 };
    assert_eq!(
        d.delete(),
        vec![
            GlCall::DeleteProgram { program: 7 },
            GlCall::DeleteBuffer { buffer: 31 },
            GlCall::DeleteVertexArray { vao: 11 },
            GlCall::DeleteTexture { texture: 41 },
        ]
    );
}

#[test]
fn xyrgb_initialize_records_its_objects() {
    let mut d = drawer_array_xyrgb::Drawer { program: 9, mode: gl::TRIANGLES, vao: 5, vbo: 0 };
    d.initialize(31, None, 0, 1, 15).unwrap();
    assert_eq!(d, drawer_array_xyrgb::Drawer { program: 9, mode: gl::TRIANGLES, vao: 5, vbo: 31 });
    d.initialize(32, Some(11), 0, 1, 15).unwrap();
    assert_eq!(d, drawer_array_xyrgb::Drawer { program: 9, mode: gl::TRIANGLES, vao: 11, vbo: 32 });
    assert_eq!(d.initialize(33, Some(12), 0, 1, usize::MAX), None);
    assert_eq!(d, drawer_array_xyrgb::Drawer { program: 9, mode: gl::TRIANGLES, vao: 11, vbo: 32 });
}

#[test]
fn xyrgb_delete_releases_objects() {
    let d = drawer_array_xyrgb::Drawer { program: 9, mode: gl::TRIANGLES, vao: 11, vbo: 31 };
    assert_eq!(
        d.delete(),
        vec![
            GlCall::DeleteProgram { program: 9 },
            GlCall::DeleteBuffer { buffer: 31 },
            GlCall::DeleteVertexArray { vao: 11 },
        ]
    );
}

#[test]
fn array_initialize_records_its_buffer() {
    let mut d = array_drawer();
    d.initialize(31, Some(11), 0, 108).unwrap();
    assert_eq!((d.vbo, d.vao), (31, 11));
    assert_eq!(d.initialize(32, Some(12), 0, usize::MAX), None);
    assert_eq!((d.vbo, d.vao), (31, 11));
}

#[test]
fn array_delete_releases_objects() {
    let mut d = array_drawer();
    d.compile_shader(7, 2, 3, 4);
    d.initialize(31, Some(11), 0, 108).unwrap();
    assert_eq!(
        d.delete(),
        vec![
            GlCall::DeleteProgram { program: 7 },
            GlCall::DeleteBuffer { buffer: 31 },
            GlCall::DeleteVertexArray { vao: 11 },
        ]
    );
}
