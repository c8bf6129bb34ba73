//! The operation wrappers: one for each native entry point.
//!
//! A wrapper checks the number of arguments, then takes each argument out of
//! its value in order, and stops at the first that is turned down. Only when
//! every argument has been converted does it hand out the native call, so a
//! call is either made with all of its arguments or not made at all.

use vstd::prelude::*;
use crate::buffer::{extract_f32_vec, extract_u8_vec};
use crate::call::{NativeCall, NativeCallView};
use crate::catalog::Operation;
use crate::marshal::first_fault;
use crate::error::{CallError, ExtractError};
use crate::value::Value;

verus! {

/// The model of what a wrapper returns.
pub open spec fn prepared(r: Result<NativeCall, CallError>) -> Result<NativeCallView, CallError> {
    match r {
        Ok(call) => Ok(call@),
        Err(e) => Err(e),
    }
}

/// Checks that `args` holds `expected` arguments.
fn check_arity(args: &Vec<Value>, expected: usize) -> (r: Result<(), CallError>)
    ensures
        r == if args.len() == expected {
            Ok::<(), CallError>(())
        } else {
            Err::<(), CallError>(CallError::Arity { expected, found: args.len() })
        },
{
    if args.len() == expected {
        Ok(())
    } else {
        Err(CallError::Arity { expected, found: args.len() })
    }
}

/// Names the argument that an extractor turned down.
fn at<T>(position: usize, r: Result<T, ExtractError>) -> (out: Result<T, CallError>)
    ensures
        out == match r {
            Ok(t) => Ok::<T, CallError>(t),
            Err(cause) => Err::<T, CallError>(CallError::Argument { position, cause }),
        },
{
    match r {
        Ok(t) => Ok(t),
        Err(cause) => Err(CallError::Argument { position, cause }),
    }
}

/// Uploads a two-dimensional image to the bound texture. Takes the target,
/// the level, the internal format, the width, the height, the border, the
/// pixel format and the pixel type, all integers, and the pixels, a list of
/// integers of which each gives one byte.
pub fn gl_tex_image_2d(args: Vec<Value>) -> (r: Result<NativeCall, CallError>)
    ensures
        prepared(r) == Operation::TexImage2D.outcome(args.deep_view()),
{
    proof {
        reveal_with_fuel(first_fault, 10);
    }
    check_arity(&args, 9)?;
    let target = at(0, args[0].to_u32())?;
    let level = at(1, args[1].to_i32())?;
    let internal_format = at(2, args[2].to_i32())?;
    let width = at(3, args[3].to_i32())?;
    let height = at(4, args[4].to_i32())?;
    let border = at(5, args[5].to_i32())?;
    let format = at(6, args[6].to_u32())?;
    let kind = at(7, args[7].to_u32())?;
    let pixels = at(8, extract_u8_vec(&args[8]))?;
    Ok(
        NativeCall::TexImage2D {
            target,
            level,
            internal_format,
            width,
            height,
            border,
            format,
            kind,
            pixels,
        },
    )
}

/// Resolves the native entry points. Takes the address of the loader, an
/// integer: a function that takes the null-terminated name of an entry point
/// and returns its address, or null.
///
/// The address is taken on trust. Nothing here can tell whether a function of
/// that signature stands at it, and nothing downstream is safe if none does.
/// The host runs this operation once, before any other of the catalog.
pub fn gl_load(args: Vec<Value>) -> (r: Result<NativeCall, CallError>)
    ensures
        prepared(r) == Operation::Load.outcome(args.deep_view()),
{
    proof {
        reveal_with_fuel(first_fault, 2);
    }
    check_arity(&args, 1)?;
    let loader = at(0, args[0].to_usize())?;
    Ok(NativeCall::Load { loader })
}

/// Describes one vertex attribute of the bound buffer. Takes the index, the
/// number of components and the component type, integers; whether fixed-point
/// data is normalized, a boolean; the stride and the offset into the buffer in
/// bytes, integers.
pub fn gl_vertex_attrib_pointer(args: Vec<Value>) -> (r: Result<NativeCall, CallError>)
    ensures
        prepared(r) == Operation::VertexAttribPointer.outcome(args.deep_view()),
{
    proof {
        reveal_with_fuel(first_fault, 7);
    }
    check_arity(&args, 6)?;
    let index = at(0, args[0].to_u32())?;
    let size = at(1, args[1].to_i32())?;
    let kind = at(2, args[2].to_u32())?;
    let normalized = at(3, args[3].to_native_bool())?;
    let stride = at(4, args[4].to_i32())?;
    let offset = at(5, args[5].to_usize())?;
    Ok(NativeCall::VertexAttribPointer { index, size, kind, normalized, stride, offset })
}

/// Uploads vertex data to the bound buffer. Takes the target, an integer; the
/// data, a list of numbers; and the usage hint, an integer.
pub fn gl_buffer_data(args: Vec<Value>) -> (r: Result<NativeCall, CallError>)
    ensures
        prepared(r) == Operation::BufferData.outcome(args.deep_view()),
{
    proof {
        reveal_with_fuel(first_fault, 4);
    }
    check_arity(&args, 3)?;
    let target = at(0, args[0].to_u32())?;
    let data = at(1, extract_f32_vec(&args[1]))?;
    let usage = at(2, args[2].to_u32())?;
    Ok(NativeCall::BufferData { target, data, usage })
}

/// Sets a uniform of four floats. Takes the location, an integer, and the four
/// components, numbers.
pub fn gl_uniform_4f(args: Vec<Value>) -> (r: Result<NativeCall, CallError>)
    ensures
        prepared(r) == Operation::Uniform4f.outcome(args.deep_view()),
{
    proof {
        reveal_with_fuel(first_fault, 6);
    }
    check_arity(&args, 5)?;
    let location = at(0, args[0].to_i32())?;
    let v0 = at(1, args[1].as_float())?;
    let v1 = at(2, args[2].as_float())?;
    let v2 = at(3, args[3].as_float())?;
    let v3 = at(4, args[4].as_float())?;
    Ok(NativeCall::Uniform4f { location, v0, v1, v2, v3 })
}

/// Sets the color that clearing fills with. Takes red, green, blue and alpha,
/// numbers.
pub fn gl_clear_color(args: Vec<Value>) -> (r: Result<NativeCall, CallError>)
    ensures
        prepared(r) == Operation::ClearColor.outcome(args.deep_view()),
{
    proof {
        reveal_with_fuel(first_fault, 5);
    }
    check_arity(&args, 4)?;
    let red = at(0, args[0].as_float())?;
    let green = at(1, args[1].as_float())?;
    let blue = at(2, args[2].as_float())?;
    let alpha = at(3, args[3].as_float())?;
    Ok(NativeCall::ClearColor { red, green, blue, alpha })
}

/// Sets the viewport. Takes the left and the lower edge, the width and the
/// height, integers.
pub fn gl_viewport(args: Vec<Value>) -> (r: Result<NativeCall, CallError>)
    ensures
        prepared(r) == Operation::Viewport.outcome(args.deep_view()),
{
    proof {
        reveal_with_fuel(first_fault, 5);
    }
    check_arity(&args, 4)?;
    let x = at(0, args[0].to_i32())?;
    let y = at(1, args[1].to_i32())?;
    let width = at(2, args[2].to_i32())?;
    let height = at(3, args[3].to_i32())?;
    Ok(NativeCall::Viewport { x, y, width, height })
}

/// Asks where a uniform of a program is. Takes the program, an integer, and the
/// name of the uniform, a text. Answers with the location, an integer.
pub fn gl_get_uniform_location(args: Vec<Value>) -> (r: Result<NativeCall, CallError>)
    ensures
        prepared(r) == Operation::GetUniformLocation.outcome(args.deep_view()),
{
    proof {
        reveal_with_fuel(first_fault, 3);
    }
    check_arity(&args, 2)?;
    let program = at(0, args[0].to_u32())?;
    let name = at(1, args[1].to_c_string())?;
    Ok(NativeCall::GetUniformLocation { program, name })
}

/// Clears the buffers that the mask names. Takes the mask, an integer.
pub fn gl_clear(args: Vec<Value>) -> (r: Result<NativeCall, CallError>)
    ensures
        prepared(r) == Operation::Clear.outcome(args.deep_view()),
{
    proof {
        reveal_with_fuel(first_fault, 2);
    }
    check_arity(&args, 1)?;
    let mask = at(0, args[0].to_u32())?;
    Ok(NativeCall::Clear { mask })
}

/// Gives a shader its source. Takes the shader, an integer, and the source, a
/// text.
pub fn gl_shader_source(args: Vec<Value>) -> (r: Result<NativeCall, CallError>)
    ensures
        prepared(r) == Operation::ShaderSource.outcome(args.deep_view()),
{
    proof {
        reveal_with_fuel(first_fault, 3);
    }
    check_arity(&args, 2)?;
    let shader = at(0, args[0].to_u32())?;
    let source = at(1, args[1].to_c_string())?;
    Ok(NativeCall::ShaderSource { shader, source })
}

/// Attaches a shader to a program. Takes the program and the shader, integers.
pub fn gl_attach_shader(args: Vec<Value>) -> (r: Result<NativeCall, CallError>)
    ensures
        prepared(r) == Operation::AttachShader.outcome(args.deep_view()),
{
    proof {
        reveal_with_fuel(first_fault, 3);
    }
    check_arity(&args, 2)?;
    let program = at(0, args[0].to_u32())?;
    let shader = at(1, args[1].to_u32())?;
    Ok(NativeCall::AttachShader { program, shader })
}

/// Creates one shader. Takes the type of shader, an integer. Answers with the
/// shader, an integer.
pub fn gl_create_shader(args: Vec<Value>) -> (r: Result<NativeCall, CallError>)
    ensures
        prepared(r) == Operation::CreateShader.outcome(args.deep_view()),
{
    proof {
        reveal_with_fuel(first_fault, 2);
    }
    check_arity(&args, 1)?;
    let kind = at(0, args[0].to_u32())?;
    Ok(NativeCall::CreateShader { kind })
}

/// Compiles a shader. Takes the shader, an integer.
pub fn gl_compile_shader(args: Vec<Value>) -> (r: Result<NativeCall, CallError>)
    ensures
        prepared(r) == Operation::CompileShader.outcome(args.deep_view()),
{
    proof {
        reveal_with_fuel(first_fault, 2);
    }
    check_arity(&args, 1)?;
    let shader = at(0, args[0].to_u32())?;
    Ok(NativeCall::CompileShader { shader })
}

/// Creates one vertex array. Takes nothing. Answers with the vertex array, an
/// integer.
pub fn gl_gen_vertex_arrays(args: Vec<Value>) -> (r: Result<NativeCall, CallError>)
    ensures
        prepared(r) == Operation::GenVertexArrays.outcome(args.deep_view()),
{
    check_arity(&args, 0)?;
    Ok(NativeCall::GenVertexArrays { count: 1 })
}

/// Creates one buffer. Takes nothing. Answers with the buffer, an integer.
pub fn gl_gen_buffers(args: Vec<Value>) -> (r: Result<NativeCall, CallError>)
    ensures
        prepared(r) == Operation::GenBuffers.outcome(args.deep_view()),
{
    check_arity(&args, 0)?;
    Ok(NativeCall::GenBuffers { count: 1 })
}

/// Sets an integer parameter of the bound texture. Takes the target, the name
/// of the parameter and its value, integers.
pub fn gl_tex_parameter_i(args: Vec<Value>) -> (r: Result<NativeCall, CallError>)
    ensures
        prepared(r) == Operation::TexParameteri.outcome(args.deep_view()),
{
    proof {
        reveal_with_fuel(first_fault, 4);
    }
    check_arity(&args, 3)?;
    let target = at(0, args[0].to_u32())?;
    let pname = at(1, args[1].to_u32())?;
    let param = at(2, args[2].to_i32())?;
    Ok(NativeCall::TexParameteri { target, pname, param })
}

/// Draws from the bound vertex arrays. Takes the primitive mode, the first
/// vertex and the number of vertices, integers.
pub fn gl_draw_arrays(args: Vec<Value>) -> (r: Result<NativeCall, CallError>)
    ensures
        prepared(r) == Operation::DrawArrays.outcome(args.deep_view()),
{
    proof {
        reveal_with_fuel(first_fault, 4);
    }
    check_arity(&args, 3)?;
    let mode = at(0, args[0].to_u32())?;
    let first = at(1, args[1].to_i32())?;
    let count = at(2, args[2].to_i32())?;
    Ok(NativeCall::DrawArrays { mode, first, count })
}

/// Creates one program. Takes nothing. Answers with the program, an integer.
pub fn gl_create_program(args: Vec<Value>) -> (r: Result<NativeCall, CallError>)
    ensures
        prepared(r) == Operation::CreateProgram.outcome(args.deep_view()),
{
    check_arity(&args, 0)?;
    Ok(NativeCall::CreateProgram)
}

/// Links a program. Takes the program, an integer.
pub fn gl_link_program(args: Vec<Value>) -> (r: Result<NativeCall, CallError>)
    ensures
        prepared(r) == Operation::LinkProgram.outcome(args.deep_view()),
{
    proof {
        reveal_with_fuel(first_fault, 2);
    }
    check_arity(&args, 1)?;
    let program = at(0, args[0].to_u32())?;
    Ok(NativeCall::LinkProgram { program })
}

/// Makes a program the current one. Takes the program, an integer.
pub fn gl_use_program(args: Vec<Value>) -> (r: Result<NativeCall, CallError>)
    ensures
        prepared(r) == Operation::UseProgram.outcome(args.deep_view()),
{
    proof {
        reveal_with_fuel(first_fault, 2);
    }
    check_arity(&args, 1)?;
    let program = at(0, args[0].to_u32())?;
    Ok(NativeCall::UseProgram { program })
}

/// Deletes a shader. Takes the shader, an integer.
pub fn gl_delete_shader(args: Vec<Value>) -> (r: Result<NativeCall, CallError>)
    ensures
        prepared(r) == Operation::DeleteShader.outcome(args.deep_view()),
{
    proof {
        reveal_with_fuel(first_fault, 2);
    }
    check_arity(&args, 1)?;
    let shader = at(0, args[0].to_u32())?;
    Ok(NativeCall::DeleteShader { shader })
}

/// Binds a vertex array. Takes the vertex array, an integer.
pub fn gl_bind_vertex_array(args: Vec<Value>) -> (r: Result<NativeCall, CallError>)
    ensures
        prepared(r) == Operation::BindVertexArray.outcome(args.deep_view()),
{
    proof {
        reveal_with_fuel(first_fault, 2);
    }
    check_arity(&args, 1)?;
    let array = at(0, args[0].to_u32())?;
    Ok(NativeCall::BindVertexArray { array })
}

/// Binds a buffer to a target. Takes the target and the buffer, integers.
pub fn gl_bind_buffer(args: Vec<Value>) -> (r: Result<NativeCall, CallError>)
    ensures
        prepared(r) == Operation::BindBuffer.outcome(args.deep_view()),
{
    proof {
        reveal_with_fuel(first_fault, 3);
    }
    check_arity(&args, 2)?;
    let target = at(0, args[0].to_u32())?;
    let buffer = at(1, args[1].to_u32())?;
    Ok(NativeCall::BindBuffer { target, buffer })
}

/// Enables a vertex attribute. Takes the index of the attribute, an integer.
pub fn gl_enable_vertex_attrib_array(args: Vec<Value>) -> (r: Result<NativeCall, CallError>)
    ensures
        prepared(r) == Operation::EnableVertexAttribArray.outcome(args.deep_view()),
{
    proof {
        reveal_with_fuel(first_fault, 2);
    }
    check_arity(&args, 1)?;
    let index = at(0, args[0].to_u32())?;
    Ok(NativeCall::EnableVertexAttribArray { index })
}

/// Binds a texture to a target. Takes the target and the texture, integers.
pub fn gl_bind_texture(args: Vec<Value>) -> (r: Result<NativeCall, CallError>)
    ensures
        prepared(r) == Operation::BindTexture.outcome(args.deep_view()),
{
    proof {
        reveal_with_fuel(first_fault, 3);
    }
    check_arity(&args, 2)?;
    let target = at(0, args[0].to_u32())?;
    let texture = at(1, args[1].to_u32())?;
    Ok(NativeCall::BindTexture { target, texture })
}

/// Creates one texture. Takes nothing. Answers with the texture, an integer.
pub fn gl_gen_textures(args: Vec<Value>) -> (r: Result<NativeCall, CallError>)
    ensures
        prepared(r) == Operation::GenTextures.outcome(args.deep_view()),
{
    check_arity(&args, 0)?;
    Ok(NativeCall::GenTextures { count: 1 })
}

/// Generates the mipmaps of the texture bound to a target. Takes the target, an
/// integer.
pub fn gl_generate_mipmap(args: Vec<Value>) -> (r: Result<NativeCall, CallError>)
    ensures
        prepared(r) == Operation::GenerateMipmap.outcome(args.deep_view()),
{
    proof {
        reveal_with_fuel(first_fault, 2);
    }
    check_arity(&args, 1)?;
    let target = at(0, args[0].to_u32())?;
    Ok(NativeCall::GenerateMipmap { target })
}

impl Operation {
    /// Invokes this operation up to the native boundary: checks and converts
    /// `args`, and hands out the native call to make, or the reason why none
    /// is made.
    pub fn prepare(self, args: Vec<Value>) -> (r: Result<NativeCall, CallError>)
        ensures
            prepared(r) == self.outcome(args.deep_view()),
    {
        match self {
            Operation::Load => gl_load(args),
            Operation::Viewport => gl_viewport(args),
            Operation::ClearColor => gl_clear_color(args),
            Operation::Clear => gl_clear(args),
            Operation::CreateShader => gl_create_shader(args),
            Operation::ShaderSource => gl_shader_source(args),
            Operation::CompileShader => gl_compile_shader(args),
            Operation::CreateProgram => gl_create_program(args),
            Operation::AttachShader => gl_attach_shader(args),
            Operation::LinkProgram => gl_link_program(args),
            Operation::UseProgram => gl_use_program(args),
            Operation::DeleteShader => gl_delete_shader(args),
            Operation::GenBuffers => gl_gen_buffers(args),
            Operation::BindBuffer => gl_bind_buffer(args),
            Operation::BufferData => gl_buffer_data(args),
            Operation::GenVertexArrays => gl_gen_vertex_arrays(args),
            Operation::BindVertexArray => gl_bind_vertex_array(args),
            Operation::VertexAttribPointer => gl_vertex_attrib_pointer(args),
            Operation::EnableVertexAttribArray => gl_enable_vertex_attrib_array(args),
            Operation::GetUniformLocation => gl_get_uniform_location(args),
            Operation::Uniform4f => gl_uniform_4f(args),
            Operation::GenTextures => gl_gen_textures(args),
            Operation::BindTexture => gl_bind_texture(args),
            Operation::TexImage2D => gl_tex_image_2d(args),
            Operation::GenerateMipmap => gl_generate_mipmap(args),
            Operation::TexParameteri => gl_tex_parameter_i(args),
            Operation::DrawArrays => gl_draw_arrays(args),
        }
    }
}

} // verus!
