//! Draw plans and viewer logic for small OpenGL programs.
//!
//! The crate holds what such a program decides: which calls a drawer issues
//! and with which arguments, how a viewer answers window events, which
//! framebuffer configuration is picked, and where a context lives while the
//! window comes and goes. It issues no call itself.

use vstd::prelude::*;
use crate::gl::GlCall;

pub mod app3;
pub mod app_internal;
pub mod array;
pub mod cast;
pub mod drawer_array_xyrgb;
pub mod drawer_array_xyzuv;
pub mod drawer_mesh;
pub mod event;
pub mod gl;
pub mod mesh_tex;
pub mod navigation;
pub mod off_screen_render;
pub mod utility;
pub mod view_ui_state;
pub mod viewer3;
pub mod viewer3d_for_gl_renderer;
pub mod words;

verus! {

/// The status of a shader that was compiled.
pub const COMPILED: i32 = 1;

/// Plans the compilation of the fresh shader object `shader` from the source
/// that the caller hands over as buffer 0.
pub fn create_shader(shader: u32) -> (r: Vec<GlCall>)
    ensures
        r@ == seq![GlCall::ShaderSource { shader, data: 0 }, GlCall::CompileShader { shader }],
{
    let mut calls: Vec<GlCall> = Vec::new();
    calls.push(GlCall::ShaderSource { shader, data: 0 });
    calls.push(GlCall::CompileShader { shader });
    assert(calls@ =~= seq![
        GlCall::ShaderSource { shader, data: 0 },
        GlCall::CompileShader { shader },
    ]);
    calls
}

/// `text` is what a log says: the bytes of `info_log` before its first zero
/// byte, or all of them where it has none.
pub open spec fn is_log_text(text: Seq<u8>, info_log: Seq<u8>) -> bool {
    &&& text.len() <= info_log.len()
    &&& forall|i: int| 0 <= i < text.len() ==> text[i] == info_log[i] && #[trigger] text[i] != 0
    &&& text.len() == info_log.len() || info_log[text.len() as int] == 0
}

/// A log says one thing only.
pub proof fn lemma_log_text_unique(a: Seq<u8>, b: Seq<u8>, info_log: Seq<u8>)
    requires
        is_log_text(a, info_log),
        is_log_text(b, info_log),
    ensures
        a == b,
{
    if a.len() < b.len() {
        assert(b[a.len() as int] != 0);
    } else if b.len() < a.len() {
        assert(a[b.len() as int] != 0);
    }
    assert(a =~= b);
}

/// Reads what the log of a shader or a program says.
pub fn log_text(info_log: &[u8]) -> (r: Vec<u8>)
    ensures
        is_log_text(r@, info_log@),
{
    let mut text: Vec<u8> = Vec::new();
    let mut i: usize = 0;
    while i < info_log.len() && info_log[i] != 0
        invariant
            i <= info_log.len(),
            text@.len() == i,
            forall|k: int| 0 <= k < i ==> text@[k] == info_log@[k] && #[trigger] text@[k] != 0,
        decreases info_log.len() - i,
    {
        text.push(info_log[i]);
        i = i + 1;
    }
    text
}

/// Judges the compilation of `shader` from its compile status and its log:
/// the shader where the status is `COMPILED`, and what the log says where it
/// is anything else.
pub fn compile_result(shader: u32, status: i32, info_log: &[u8]) -> (r: Result<u32, Vec<u8>>)
    ensures
        status == COMPILED ==> r == Ok::<u32, Vec<u8>>(shader),
        status != COMPILED ==> r is Err && is_log_text(r->Err_0@, info_log@),
{
    if status == COMPILED {
        Ok(shader)
    } else {
        Err(log_text(info_log))
    }
}

/// The calls that link the compiled shaders into `program`, make it the
/// program in use and release the shader objects.
pub open spec fn program_calls(vertex_shader: u32, fragment_shader: u32, program: u32) -> Seq<
    GlCall,
> {
    seq![
        GlCall::AttachShader { program, shader: vertex_shader },
        GlCall::AttachShader { program, shader: fragment_shader },
        GlCall::LinkProgram { program },
        GlCall::UseProgram { program },
        GlCall::DeleteShader { shader: vertex_shader },
        GlCall::DeleteShader { shader: fragment_shader },
    ]
}

/// Plans the build of the fresh program `program` from two shaders that
/// were compiled. How the link went is judged afterwards, by
/// `utility::link_result`.
pub fn set_shader_program(vertex_shader: u32, fragment_shader: u32, program: u32) -> (r: Vec<
    GlCall,
>)
    ensures
        r@ == program_calls(vertex_shader, fragment_shader, program),
{
    let mut calls: Vec<GlCall> = Vec::new();
    calls.push(GlCall::AttachShader { program, shader: vertex_shader });
    calls.push(GlCall::AttachShader { program, shader: fragment_shader });
    calls.push(GlCall::LinkProgram { program });
    calls.push(GlCall::UseProgram { program });
    calls.push(GlCall::DeleteShader { shader: vertex_shader });
    calls.push(GlCall::DeleteShader { shader: fragment_shader });
    assert(calls@ =~= program_calls(vertex_shader, fragment_shader, program));
    calls
}

} // verus!
