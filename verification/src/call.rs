//! What crosses the native boundary: a native entry point with the arguments
//! it is to be called with, and what the native side hands back.
//!
//! A [`NativeCall`] holds every argument in the type that the entry point
//! takes, in the order in which it takes them. Buffers are owned by the call,
//! so a pointer into one is good for as long as the call is kept. The
//! floating-point arguments are [`Number`]s: the native boundary narrows each
//! to the native width.

use vstd::prelude::*;
use crate::extract::Number;

verus! {

/// A native entry point and its arguments, checked and converted.
#[derive(Debug, PartialEq)]
pub enum NativeCall {
    /// Resolve the native entry points through the loader at this address.
    Load { loader: usize },
    Viewport { x: i32, y: i32, width: i32, height: i32 },
    ClearColor { red: Number, green: Number, blue: Number, alpha: Number },
    Clear { mask: u32 },
    CreateShader { kind: u32 },
    /// `source` is null-terminated.
    ShaderSource { shader: u32, source: Vec<u8> },
    CompileShader { shader: u32 },
    CreateProgram,
    AttachShader { program: u32, shader: u32 },
    LinkProgram { program: u32 },
    UseProgram { program: u32 },
    DeleteShader { shader: u32 },
    GenBuffers { count: i32 },
    BindBuffer { target: u32, buffer: u32 },
    BufferData { target: u32, data: Vec<Number>, usage: u32 },
    GenVertexArrays { count: i32 },
    BindVertexArray { array: u32 },
    VertexAttribPointer {
        index: u32,
        size: i32,
        kind: u32,
        normalized: u8,
        stride: i32,
        offset: usize,
    },
    EnableVertexAttribArray { index: u32 },
    /// `name` is null-terminated.
    GetUniformLocation { program: u32, name: Vec<u8> },
    Uniform4f { location: i32, v0: Number, v1: Number, v2: Number, v3: Number },
    GenTextures { count: i32 },
    BindTexture { target: u32, texture: u32 },
    TexImage2D {
        target: u32,
        level: i32,
        internal_format: i32,
        width: i32,
        height: i32,
        border: i32,
        format: u32,
        kind: u32,
        pixels: Vec<u8>,
    },
    GenerateMipmap { target: u32 },
    TexParameteri { target: u32, pname: u32, param: i32 },
    DrawArrays { mode: u32, first: i32, count: i32 },
}

/// The mathematical model of a [`NativeCall`]: its buffers are sequences.
pub enum NativeCallView {
    Load { loader: usize },
    Viewport { x: i32, y: i32, width: i32, height: i32 },
    ClearColor { red: Number, green: Number, blue: Number, alpha: Number },
    Clear { mask: u32 },
    CreateShader { kind: u32 },
    ShaderSource { shader: u32, source: Seq<u8> },
    CompileShader { shader: u32 },
    CreateProgram,
    AttachShader { program: u32, shader: u32 },
    LinkProgram { program: u32 },
    UseProgram { program: u32 },
    DeleteShader { shader: u32 },
    GenBuffers { count: i32 },
    BindBuffer { target: u32, buffer: u32 },
    BufferData { target: u32, data: Seq<Number>, usage: u32 },
    GenVertexArrays { count: i32 },
    BindVertexArray { array: u32 },
    VertexAttribPointer {
        index: u32,
        size: i32,
        kind: u32,
        normalized: u8,
        stride: i32,
        offset: usize,
    },
    EnableVertexAttribArray { index: u32 },
    GetUniformLocation { program: u32, name: Seq<u8> },
    Uniform4f { location: i32, v0: Number, v1: Number, v2: Number, v3: Number },
    GenTextures { count: i32 },
    BindTexture { target: u32, texture: u32 },
    TexImage2D {
        target: u32,
        level: i32,
        internal_format: i32,
        width: i32,
        height: i32,
        border: i32,
        format: u32,
        kind: u32,
        pixels: Seq<u8>,
    },
    GenerateMipmap { target: u32 },
    TexParameteri { target: u32, pname: u32, param: i32 },
    DrawArrays { mode: u32, first: i32, count: i32 },
}

impl View for NativeCall {
    type V = NativeCallView;

    open spec fn view(&self) -> NativeCallView {
        match *self {
            NativeCall::Load { loader } => NativeCallView::Load { loader },
            NativeCall::Viewport { x, y, width, height } => NativeCallView::Viewport {
                x,
                y,
                width,
                height,
            },
            NativeCall::ClearColor { red, green, blue, alpha } => NativeCallView::ClearColor {
                red,
                green,
                blue,
                alpha,
            },
            NativeCall::Clear { mask } => NativeCallView::Clear { mask },
            NativeCall::CreateShader { kind } => NativeCallView::CreateShader { kind },
            NativeCall::ShaderSource { shader, source } => NativeCallView::ShaderSource {
                shader,
                source: source@,
            },
            NativeCall::CompileShader { shader } => NativeCallView::CompileShader { shader },
            NativeCall::CreateProgram => NativeCallView::CreateProgram,
            NativeCall::AttachShader { program, shader } => NativeCallView::AttachShader {
                program,
                shader,
            },
            NativeCall::LinkProgram { program } => NativeCallView::LinkProgram { program },
            NativeCall::UseProgram { program } => NativeCallView::UseProgram { program },
            NativeCall::DeleteShader { shader } => NativeCallView::DeleteShader { shader },
            NativeCall::GenBuffers { count } => NativeCallView::GenBuffers { count },
            NativeCall::BindBuffer { target, buffer } => NativeCallView::BindBuffer {
                target,
                buffer,
            },
            NativeCall::BufferData { target, data, usage } => NativeCallView::BufferData {
                target,
                data: data@,
                usage,
            },
            NativeCall::GenVertexArrays { count } => NativeCallView::GenVertexArrays { count },
            NativeCall::BindVertexArray { array } => NativeCallView::BindVertexArray { array },
            NativeCall::VertexAttribPointer {
                index,
                size,
                kind,
                normalized,
                stride,
                offset,
            } => NativeCallView::VertexAttribPointer {
                index,
                size,
                kind,
                normalized,
                stride,
                offset,
            },
            NativeCall::EnableVertexAttribArray { index } => {
                NativeCallView::EnableVertexAttribArray { index }
            },
            NativeCall::GetUniformLocation { program, name } => NativeCallView::GetUniformLocation {
                program,
                name: name@,
            },
            NativeCall::Uniform4f { location, v0, v1, v2, v3 } => NativeCallView::Uniform4f {
                location,
                v0,
                v1,
                v2,
                v3,
            },
            NativeCall::GenTextures { count } => NativeCallView::GenTextures { count },
            NativeCall::BindTexture { target, texture } => NativeCallView::BindTexture {
                target,
                texture,
            },
            NativeCall::TexImage2D {
                target,
                level,
                internal_format,
                width,
                height,
                border,
                format,
                kind,
                pixels,
            } => NativeCallView::TexImage2D {
                target,
                level,
                internal_format,
                width,
                height,
                border,
                format,
                kind,
                pixels: pixels@,
            },
            NativeCall::GenerateMipmap { target } => NativeCallView::GenerateMipmap { target },
            NativeCall::TexParameteri { target, pname, param } => NativeCallView::TexParameteri {
                target,
                pname,
                param,
            },
            NativeCall::DrawArrays { mode, first, count } => NativeCallView::DrawArrays {
                mode,
                first,
                count,
            },
        }
    }
}

/// What a native entry point hands back.
#[derive(Clone, Copy, Debug, PartialEq, Eq, Structural)]
pub enum NativeReturn {
    /// The entry point returns nothing.
    Nothing,
    /// The name of a native object: a shader, a program, a buffer, a vertex
    /// array or a texture.
    Handle(u32),
    /// The location of a uniform, or the native side's negative answer.
    Location(i32),
}

} // verus!
