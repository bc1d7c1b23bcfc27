//! Plans for building a shader program and for making a texture.

use vstd::prelude::*;
use crate::gl;
use crate::gl::GlCall;
use crate::{compile_result, is_log_text, log_text, COMPILED};

verus! {

/// The calls that compile the vertex shader `vs` from buffer 0 and the
/// fragment shader `fs` from buffer 1, and link both into `id_program`.
pub open spec fn compile_calls(vs: u32, fs: u32, id_program: u32) -> Seq<GlCall> {
    seq![
        GlCall::ShaderSource { shader: vs, data: 0 },
        GlCall::CompileShader { shader: vs },
        GlCall::ShaderSource { shader: fs, data: 1 },
        GlCall::CompileShader { shader: fs },
        GlCall::AttachShader { program: id_program, shader: vs },
        GlCall::AttachShader { program: id_program, shader: fs },
        GlCall::LinkProgram { program: id_program },
    ]
}

/// Plans the build of the fresh program `id_program` from the fresh shader
/// objects `vs` and `fs`, whose sources the caller hands over as the buffers
/// 0 and 1.
pub fn compile_shaders(vs: u32, fs: u32, id_program: u32) -> (r: Vec<GlCall>)
    ensures
        r@ == compile_calls(vs, fs, id_program),
{
    let mut calls: Vec<GlCall> = Vec::new();
    calls.push(GlCall::ShaderSource { shader: vs, data: 0 });
    calls.push(GlCall::CompileShader { shader: vs });
    calls.push(GlCall::ShaderSource { shader: fs, data: 1 });
    calls.push(GlCall::CompileShader { shader: fs });
    calls.push(GlCall::AttachShader { program: id_program, shader: vs });
    calls.push(GlCall::AttachShader { program: id_program, shader: fs });
    calls.push(GlCall::LinkProgram { program: id_program });
    assert(calls@ =~= compile_calls(vs, fs, id_program));
    calls
}

/// Why a program cannot be used.
#[derive(Debug, PartialEq, Eq)]
pub enum LinkError {
    /// The name that was linked is no program.
    NotAProgram,
    /// The link failed; `log` is what the log of the link says.
    Failed { log: Vec<u8> },
}

/// What the API says of a link: whether the name is a program at all
/// (`is_program` is not zero), and its link status, where zero is a failure.
pub open spec fn link_failure(is_program: u8, link_status: i32) -> bool {
    is_program == 0 || link_status == 0
}

/// Judges the link of a program from what the API says of it and from the
/// log of the link. A name that is no program is an error, and so is a link
/// that failed, which comes with what its log says.
pub fn link_result(is_program: u8, link_status: i32, info_log: &[u8]) -> (r: Result<(), LinkError>)
    ensures
        r is Err <==> link_failure(is_program, link_status),
        is_program == 0 ==> r == Err::<(), LinkError>(LinkError::NotAProgram),
        is_program != 0 && link_status == 0 ==> (r matches Err(LinkError::Failed { log })
            && is_log_text(log@, info_log@)),
{
    if is_program == 0 {
        Err(LinkError::NotAProgram)
    } else if link_status == 0 {
        Err(LinkError::Failed { log: log_text(info_log) })
    } else {
        Ok(())
    }
}

/// Why a program could not be built.
#[derive(Debug, PartialEq, Eq)]
pub enum BuildError {
    /// The vertex shader was not compiled; `log` is what its log says.
    VertexShader { log: Vec<u8> },
    /// The fragment shader was not compiled; `log` is what its log says.
    FragmentShader { log: Vec<u8> },
    /// The name that was linked is no program.
    NotAProgram,
    /// The link failed; `log` is what the log of the link says.
    Link { log: Vec<u8> },
}

/// The build of a program failed: one of its shaders was not compiled, or
/// its link failed.
pub open spec fn build_failure(vs_status: i32, fs_status: i32, is_program: u8, link_status: i32) -> bool {
    vs_status != COMPILED || fs_status != COMPILED || link_failure(is_program, link_status)
}

/// `error` is what is wrong first with a build, in the order vertex shader,
/// fragment shader, program, link, and carries what the log of that step
/// says.
pub open spec fn is_build_error(
    error: BuildError,
    vs_status: i32,
    vs_log: Seq<u8>,
    fs_status: i32,
    fs_log: Seq<u8>,
    is_program: u8,
    link_status: i32,
    link_log: Seq<u8>,
) -> bool {
    if vs_status != COMPILED {
        error matches BuildError::VertexShader { log } && is_log_text(log@, vs_log)
    } else if fs_status != COMPILED {
        error matches BuildError::FragmentShader { log } && is_log_text(log@, fs_log)
    } else if is_program == 0 {
        error is NotAProgram
    } else {
        link_status == 0 && (error matches BuildError::Link { log } && is_log_text(log@, link_log))
    }
}

/// Ends the build of a program from the vertex shader `vs` and the fragment
/// shader `fs`. The build is judged from the compile status and the log of
/// each shader, and from what the API says of the link and its log. Where a
/// shader was not compiled or the link failed, the first of these failures
/// comes back as the error. Where all went well, the release of the two
/// shader objects is planned.
pub fn finish_build(
    vs: u32,
    fs: u32,
    vs_status: i32,
    vs_log: &[u8],
    fs_status: i32,
    fs_log: &[u8],
    is_program: u8,
    link_status: i32,
    link_log: &[u8],
) -> (r: Result<Vec<GlCall>, BuildError>)
    ensures
        r is Err <==> build_failure(vs_status, fs_status, is_program, link_status),
        r matches Err(error) ==> is_build_error(
            error,
            vs_status,
            vs_log@,
            fs_status,
            fs_log@,
            is_program,
            link_status,
            link_log@,
        ),
        r matches Ok(calls) ==> calls@ == seq![
            GlCall::DeleteShader { shader: vs },
            GlCall::DeleteShader { shader: fs },
        ],
{
    match compile_result(vs, vs_status, vs_log) {
        Ok(_) => {},
        Err(log) => {
            return Err(BuildError::VertexShader { log });
        },
    }
    match compile_result(fs, fs_status, fs_log) {
        Ok(_) => {},
        Err(log) => {
            return Err(BuildError::FragmentShader { log });
        },
    }
    match link_result(is_program, link_status, link_log) {
        Ok(()) => {},
        Err(LinkError::NotAProgram) => {
            return Err(BuildError::NotAProgram);
        },
        Err(LinkError::Failed { log }) => {
            return Err(BuildError::Link { log });
        },
    }
    let mut calls: Vec<GlCall> = Vec::new();
    calls.push(GlCall::DeleteShader { shader: vs });
    calls.push(GlCall::DeleteShader { shader: fs });
    assert(calls@ =~= seq![
        GlCall::DeleteShader { shader: vs },
        GlCall::DeleteShader { shader: fs },
    ]);
    Ok(calls)
}

/// The calls that make the pixels of buffer 0, `width` by `height` of them
/// in the layout `format` with bytes tightly packed, the texture `id_tex` of
/// unit 0, kept as red, green and blue, with its mipmaps.
pub open spec fn texture_calls(id_tex: u32, width: i32, height: i32, format: u32) -> Seq<GlCall> {
    seq![
        GlCall::Enable { cap: gl::TEXTURE_2D },
        GlCall::ActiveTexture { texture: gl::TEXTURE0 },
        GlCall::BindTexture { target: gl::TEXTURE_2D, texture: id_tex },
        GlCall::PixelStorei { pname: gl::UNPACK_ALIGNMENT, param: 1 },
        GlCall::TexImage2D {
            target: gl::TEXTURE_2D,
            level: 0,
            internal_format: gl::RGB as i32,
            width,
            height,
            border: 0,
            format,
            kind: gl::UNSIGNED_BYTE,
            data: 0,
        },
        GlCall::GenerateMipmap { target: gl::TEXTURE_2D },
    ]
}

/// Plans the making of the fresh texture `id_tex` from an image.
pub fn gen_texture(id_tex: u32, width: i32, height: i32, format: u32) -> (r: Vec<GlCall>)
    ensures
        r@ == texture_calls(id_tex, width, height, format),
{
    let mut calls: Vec<GlCall> = Vec::new();
    calls.push(GlCall::Enable { cap: gl::TEXTURE_2D });
    calls.push(GlCall::ActiveTexture { texture: gl::TEXTURE0 });
    calls.push(GlCall::BindTexture { target: gl::TEXTURE_2D, texture: id_tex });
    calls.push(GlCall::PixelStorei { pname: gl::UNPACK_ALIGNMENT, param: 1 });
    calls.push(
        GlCall::TexImage2D {
            target: gl::TEXTURE_2D,
            level: 0,
            internal_format: gl::RGB as i32,
            width,
            height,
            border: 0,
            format,
            kind: gl::UNSIGNED_BYTE,
            data: 0,
        },
    );
    calls.push(GlCall::GenerateMipmap { target: gl::TEXTURE_2D });
    assert(calls@ =~= texture_calls(id_tex, width, height, format));
    calls
}

} // verus!
