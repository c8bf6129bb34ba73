//! The catalog: every operation that the bridge offers, under which name,
//! with how many arguments of which kinds, and what kind of value it answers
//! with.
//!
//! The catalog is fixed. Names, arities and the order of the argument kinds
//! are what host scripts are written against.

use vstd::prelude::*;
use crate::value::Kind;

verus! {

/// An operation of the catalog: one for each native entry point that the
/// bridge reaches.
#[derive(Clone, Copy, Debug, PartialEq, Eq, Hash, Structural)]
pub enum Operation {
    Load,
    Viewport,
    ClearColor,
    Clear,
    CreateShader,
    ShaderSource,
    CompileShader,
    CreateProgram,
    AttachShader,
    LinkProgram,
    UseProgram,
    DeleteShader,
    GenBuffers,
    BindBuffer,
    BufferData,
    GenVertexArrays,
    BindVertexArray,
    VertexAttribPointer,
    EnableVertexAttribArray,
    GetUniformLocation,
    Uniform4f,
    GenTextures,
    BindTexture,
    TexImage2D,
    GenerateMipmap,
    TexParameteri,
    DrawArrays,
}

/// What an argument of an operation must be.
#[derive(Clone, Copy, Debug, PartialEq, Eq, Structural)]
pub enum Param {
    /// An integer, narrowed to the native width.
    Integer,
    /// A number, integer or float.
    Float,
    /// A boolean.
    Boolean,
    /// A text without a null character.
    Text,
    /// A list of numbers.
    FloatList,
    /// A list of integers, each narrowed to a byte.
    ByteList,
}

impl Operation {
    /// The name under which this operation is registered.
    pub open spec fn spec_name(self) -> Seq<char> {
        match self {
            Operation::Load => "gl_load"@,
            Operation::Viewport => "gl_viewport"@,
            Operation::ClearColor => "gl_clear_color"@,
            Operation::Clear => "gl_clear"@,
            Operation::CreateShader => "gl_create_shader"@,
            Operation::ShaderSource => "gl_shader_source"@,
            Operation::CompileShader => "gl_compile_shader"@,
            Operation::CreateProgram => "gl_create_program"@,
            Operation::AttachShader => "gl_attach_shader"@,
            Operation::LinkProgram => "gl_link_program"@,
            Operation::UseProgram => "gl_use_program"@,
            Operation::DeleteShader => "gl_delete_shader"@,
            Operation::GenBuffers => "gl_gen_buffers"@,
            Operation::BindBuffer => "gl_bind_buffer"@,
            Operation::BufferData => "gl_buffer_data"@,
            Operation::GenVertexArrays => "gl_gen_vertex_arrays"@,
            Operation::BindVertexArray => "gl_bind_vertex_array"@,
            Operation::VertexAttribPointer => "gl_vertex_attrib_pointer"@,
            Operation::EnableVertexAttribArray => "gl_enable_vertex_attrib_array"@,
            Operation::GetUniformLocation => "gl_get_uniform_location"@,
            Operation::Uniform4f => "gl_uniform_4f"@,
            Operation::GenTextures => "gl_gen_textures"@,
            Operation::BindTexture => "gl_bind_texture"@,
            Operation::TexImage2D => "gl_tex_image_2d"@,
            Operation::GenerateMipmap => "gl_generate_mipmap"@,
            Operation::TexParameteri => "gl_tex_parameter_i"@,
            Operation::DrawArrays => "gl_draw_arrays"@,
        }
    }

    /// What the arguments of this operation must be, in order.
    pub open spec fn params(self) -> Seq<Param> {
        match self {
            Operation::Load => seq![Param::Integer],
            Operation::Viewport => seq![
                Param::Integer,
                Param::Integer,
                Param::Integer,
                Param::Integer,
            ],
            Operation::ClearColor => seq![Param::Float, Param::Float, Param::Float, Param::Float],
            Operation::Clear => seq![Param::Integer],
            Operation::CreateShader => seq![Param::Integer],
            Operation::ShaderSource => seq![Param::Integer, Param::Text],
            Operation::CompileShader => seq![Param::Integer],
            Operation::CreateProgram => seq![],
            Operation::AttachShader => seq![Param::Integer, Param::Integer],
            Operation::LinkProgram => seq![Param::Integer],
            Operation::UseProgram => seq![Param::Integer],
            Operation::DeleteShader => seq![Param::Integer],
            Operation::GenBuffers => seq![],
            Operation::BindBuffer => seq![Param::Integer, Param::Integer],
            Operation::BufferData => seq![Param::Integer, Param::FloatList, Param::Integer],
            Operation::GenVertexArrays => seq![],
            Operation::BindVertexArray => seq![Param::Integer],
            Operation::VertexAttribPointer => seq![
                Param::Integer,
                Param::Integer,
                Param::Integer,
                Param::Boolean,
                Param::Integer,
                Param::Integer,
            ],
            Operation::EnableVertexAttribArray => seq![Param::Integer],
            Operation::GetUniformLocation => seq![Param::Integer, Param::Text],
            Operation::Uniform4f => seq![
                Param::Integer,
                Param::Float,
                Param::Float,
                Param::Float,
                Param::Float,
            ],
            Operation::GenTextures => seq![],
            Operation::BindTexture => seq![Param::Integer, Param::Integer],
            Operation::TexImage2D => seq![
                Param::Integer,
                Param::Integer,
                Param::Integer,
                Param::Integer,
                Param::Integer,
                Param::Integer,
                Param::Integer,
                Param::Integer,
                Param::ByteList,
            ],
            Operation::GenerateMipmap => seq![Param::Integer],
            Operation::TexParameteri => seq![Param::Integer, Param::Integer, Param::Integer],
            Operation::DrawArrays => seq![Param::Integer, Param::Integer, Param::Integer],
        }
    }

    /// The kind of value that this operation answers with.
    pub open spec fn spec_result_kind(self) -> Kind {
        match self {
            Operation::Load => Kind::Boolean,
            Operation::CreateShader
            | Operation::CreateProgram
            | Operation::GenBuffers
            | Operation::GenVertexArrays
            | Operation::GenTextures
            | Operation::GetUniformLocation => Kind::Integer,
            _ => Kind::Null,
        }
    }

    /// The name under which this operation is registered.
    pub fn name(self) -> (name: &'static str)
        ensures
            name@ == self.spec_name(),
    {
        match self {
            Operation::Load => "gl_load",
            Operation::Viewport => "gl_viewport",
            Operation::ClearColor => "gl_clear_color",
            Operation::Clear => "gl_clear",
            Operation::CreateShader => "gl_create_shader",
            Operation::ShaderSource => "gl_shader_source",
            Operation::CompileShader => "gl_compile_shader",
            Operation::CreateProgram => "gl_create_program",
            Operation::AttachShader => "gl_attach_shader",
            Operation::LinkProgram => "gl_link_program",
            Operation::UseProgram => "gl_use_program",
            Operation::DeleteShader => "gl_delete_shader",
            Operation::GenBuffers => "gl_gen_buffers",
            Operation::BindBuffer => "gl_bind_buffer",
            Operation::BufferData => "gl_buffer_data",
            Operation::GenVertexArrays => "gl_gen_vertex_arrays",
            Operation::BindVertexArray => "gl_bind_vertex_array",
            Operation::VertexAttribPointer => "gl_vertex_attrib_pointer",
            Operation::EnableVertexAttribArray => "gl_enable_vertex_attrib_array",
            Operation::GetUniformLocation => "gl_get_uniform_location",
            Operation::Uniform4f => "gl_uniform_4f",
            Operation::GenTextures => "gl_gen_textures",
            Operation::BindTexture => "gl_bind_texture",
            Operation::TexImage2D => "gl_tex_image_2d",
            Operation::GenerateMipmap => "gl_generate_mipmap",
            Operation::TexParameteri => "gl_tex_parameter_i",
            Operation::DrawArrays => "gl_draw_arrays",
        }
    }

    /// How many arguments this operation takes.
    pub fn arity(self) -> (n: usize)
        ensures
            n == self.params().len(),
    {
        match self {
            Operation::CreateProgram
            | Operation::GenBuffers
            | Operation::GenVertexArrays
            | Operation::GenTextures => 0,
            Operation::Load
            | Operation::Clear
            | Operation::CreateShader
            | Operation::CompileShader
            | Operation::LinkProgram
            | Operation::UseProgram
            | Operation::DeleteShader
            | Operation::BindVertexArray
            | Operation::EnableVertexAttribArray
            | Operation::GenerateMipmap => 1,
            Operation::ShaderSource
            | Operation::AttachShader
            | Operation::BindBuffer
            | Operation::GetUniformLocation
            | Operation::BindTexture => 2,
            Operation::BufferData | Operation::TexParameteri | Operation::DrawArrays => 3,
            Operation::Viewport | Operation::ClearColor => 4,
            Operation::Uniform4f => 5,
            Operation::VertexAttribPointer => 6,
            Operation::TexImage2D => 9,
        }
    }

    /// What the arguments of this operation must be, in order.
    pub fn parameters(self) -> (params: Vec<Param>)
        ensures
            params@ == self.params(),
    {
        let params: Vec<Param> = match self {
            Operation::Load => vec![Param::Integer],
            Operation::Viewport => vec![
                Param::Integer,
                Param::Integer,
                Param::Integer,
                Param::Integer,
            ],
            Operation::ClearColor => vec![Param::Float, Param::Float, Param::Float, Param::Float],
            Operation::Clear => vec![Param::Integer],
            Operation::CreateShader => vec![Param::Integer],
            Operation::ShaderSource => vec![Param::Integer, Param::Text],
            Operation::CompileShader => vec![Param::Integer],
            Operation::CreateProgram => vec![],
            Operation::AttachShader => vec![Param::Integer, Param::Integer],
            Operation::LinkProgram => vec![Param::Integer],
            Operation::UseProgram => vec![Param::Integer],
            Operation::DeleteShader => vec![Param::Integer],
            Operation::GenBuffers => vec![],
            Operation::BindBuffer => vec![Param::Integer, Param::Integer],
            Operation::BufferData => vec![Param::Integer, Param::FloatList, Param::Integer],
            Operation::GenVertexArrays => vec![],
            Operation::BindVertexArray => vec![Param::Integer],
            Operation::VertexAttribPointer => vec![
                Param::Integer,
                Param::Integer,
                Param::Integer,
                Param::Boolean,
                Param::Integer,
                Param::Integer,
            ],
            Operation::EnableVertexAttribArray => vec![Param::Integer],
            Operation::GetUniformLocation => vec![Param::Integer, Param::Text],
            Operation::Uniform4f => vec![
                Param::Integer,
                Param::Float,
                Param::Float,
                Param::Float,
                Param::Float,
            ],
            Operation::GenTextures => vec![],
            Operation::BindTexture => vec![Param::Integer, Param::Integer],
            Operation::TexImage2D => vec![
                Param::Integer,
                Param::Integer,
                Param::Integer,
                Param::Integer,
                Param::Integer,
                Param::Integer,
                Param::Integer,
                Param::Integer,
                Param::ByteList,
            ],
            Operation::GenerateMipmap => vec![Param::Integer],
            Operation::TexParameteri => vec![Param::Integer, Param::Integer, Param::Integer],
            Operation::DrawArrays => vec![Param::Integer, Param::Integer, Param::Integer],
        };
        proof {
            assert(params@ =~= self.params());
        }
        params
    }

    /// The kind of value that this operation answers with.
    pub fn result_kind(self) -> (kind: Kind)
        ensures
            kind == self.spec_result_kind(),
    {
        match self {
            Operation::Load => Kind::Boolean,
            Operation::CreateShader
            | Operation::CreateProgram
            | Operation::GenBuffers
            | Operation::GenVertexArrays
            | Operation::GenTextures
            | Operation::GetUniformLocation => Kind::Integer,
            _ => Kind::Null,
        }
    }
}

/// The catalog: every operation, once, in the order of registration.
pub open spec fn catalog_view() -> Seq<Operation> {
    seq![
        Operation::Load,
        Operation::Viewport,
        Operation::ClearColor,
        Operation::Clear,
        Operation::CreateShader,
        Operation::ShaderSource,
        Operation::CompileShader,
        Operation::CreateProgram,
        Operation::AttachShader,
        Operation::LinkProgram,
        Operation::UseProgram,
        Operation::DeleteShader,
        Operation::GenBuffers,
        Operation::BindBuffer,
        Operation::BufferData,
        Operation::GenVertexArrays,
        Operation::BindVertexArray,
        Operation::VertexAttribPointer,
        Operation::EnableVertexAttribArray,
        Operation::GetUniformLocation,
        Operation::Uniform4f,
        Operation::GenTextures,
        Operation::BindTexture,
        Operation::TexImage2D,
        Operation::GenerateMipmap,
        Operation::TexParameteri,
        Operation::DrawArrays,
    ]
}

/// The catalog: every operation, once, in the order of registration.
pub fn catalog() -> (operations: Vec<Operation>)
    ensures
        operations@ == catalog_view(),
{
    let operations: Vec<Operation> = vec![
        Operation::Load,
        Operation::Viewport,
        Operation::ClearColor,
        Operation::Clear,
        Operation::CreateShader,
        Operation::ShaderSource,
        Operation::CompileShader,
        Operation::CreateProgram,
        Operation::AttachShader,
        Operation::LinkProgram,
        Operation::UseProgram,
        Operation::DeleteShader,
        Operation::GenBuffers,
        Operation::BindBuffer,
        Operation::BufferData,
        Operation::GenVertexArrays,
        Operation::BindVertexArray,
        Operation::VertexAttribPointer,
        Operation::EnableVertexAttribArray,
        Operation::GetUniformLocation,
        Operation::Uniform4f,
        Operation::GenTextures,
        Operation::BindTexture,
        Operation::TexImage2D,
        Operation::GenerateMipmap,
        Operation::TexParameteri,
        Operation::DrawArrays,
    ];
    proof {
        assert(operations@ =~= catalog_view());
    }
    operations
}

/// The place of an operation in the catalog.
pub open spec fn catalog_index(op: Operation) -> int {
    match op {
        Operation::Load => 0,
        Operation::Viewport => 1,
        Operation::ClearColor => 2,
        Operation::Clear => 3,
        Operation::CreateShader => 4,
        Operation::ShaderSource => 5,
        Operation::CompileShader => 6,
        Operation::CreateProgram => 7,
        Operation::AttachShader => 8,
        Operation::LinkProgram => 9,
        Operation::UseProgram => 10,
        Operation::DeleteShader => 11,
        Operation::GenBuffers => 12,
        Operation::BindBuffer => 13,
        Operation::BufferData => 14,
        Operation::GenVertexArrays => 15,
        Operation::BindVertexArray => 16,
        Operation::VertexAttribPointer => 17,
        Operation::EnableVertexAttribArray => 18,
        Operation::GetUniformLocation => 19,
        Operation::Uniform4f => 20,
        Operation::GenTextures => 21,
        Operation::BindTexture => 22,
        Operation::TexImage2D => 23,
        Operation::GenerateMipmap => 24,
        Operation::TexParameteri => 25,
        Operation::DrawArrays => 26,
    }
}

/// Every operation stands in the catalog, and none stands in it twice.
pub proof fn lemma_catalog_complete(op: Operation)
    ensures
        catalog_view().len() == 27,
        catalog_view().contains(op),
        catalog_view().no_duplicates(),
{
    let all = catalog_view();
    let at = catalog_index(op);
    assert(all[at] == op);
    assert forall|i: int, j: int| 0 <= i < all.len() && 0 <= j < all.len() && i != j implies all[i]
        != all[j] by {
        assert(catalog_index(all[i]) == i);
        assert(catalog_index(all[j]) == j);
    }
}

/// What tells the name of an operation from every other name of the catalog:
/// its length and its fourth and fifth characters.
spec fn mark(op: Operation) -> (nat, char, char) {
    match op {
        Operation::Load => (7, 'l', 'o'),
        Operation::Viewport => (11, 'v', 'i'),
        Operation::ClearColor => (14, 'c', 'l'),
        Operation::Clear => (8, 'c', 'l'),
        Operation::CreateShader => (16, 'c', 'r'),
        Operation::ShaderSource => (16, 's', 'h'),
        Operation::CompileShader => (17, 'c', 'o'),
        Operation::CreateProgram => (17, 'c', 'r'),
        Operation::AttachShader => (16, 'a', 't'),
        Operation::LinkProgram => (15, 'l', 'i'),
        Operation::UseProgram => (14, 'u', 's'),
        Operation::DeleteShader => (16, 'd', 'e'),
        Operation::GenBuffers => (14, 'g', 'e'),
        Operation::BindBuffer => (14, 'b', 'i'),
        Operation::BufferData => (14, 'b', 'u'),
        Operation::GenVertexArrays => (20, 'g', 'e'),
        Operation::BindVertexArray => (20, 'b', 'i'),
        Operation::VertexAttribPointer => (24, 'v', 'e'),
        Operation::EnableVertexAttribArray => (29, 'e', 'n'),
        Operation::GetUniformLocation => (23, 'g', 'e'),
        Operation::Uniform4f => (13, 'u', 'n'),
        Operation::GenTextures => (15, 'g', 'e'),
        Operation::BindTexture => (15, 'b', 'i'),
        Operation::TexImage2D => (15, 't', 'e'),
        Operation::GenerateMipmap => (18, 'g', 'e'),
        Operation::TexParameteri => (18, 't', 'e'),
        Operation::DrawArrays => (14, 'd', 'r'),
    }
}

/// The name of an operation bears its mark.
proof fn lemma_name_mark(op: Operation)
    ensures
        op.spec_name().len() == mark(op).0,
        op.spec_name()[3] == mark(op).1,
        op.spec_name()[4] == mark(op).2,
{
    match op {
        Operation::Load => {
            reveal_strlit("gl_load");
        },
        Operation::Viewport => {
            reveal_strlit("gl_viewport");
        },
        Operation::ClearColor => {
            reveal_strlit("gl_clear_color");
        },
        Operation::Clear => {
            reveal_strlit("gl_clear");
        },
        Operation::CreateShader => {
            reveal_strlit("gl_create_shader");
        },
        Operation::ShaderSource => {
            reveal_strlit("gl_shader_source");
        },
        Operation::CompileShader => {
            reveal_strlit("gl_compile_shader");
        },
        Operation::CreateProgram => {
            reveal_strlit("gl_create_program");
        },
        Operation::AttachShader => {
            reveal_strlit("gl_attach_shader");
        },
        Operation::LinkProgram => {
            reveal_strlit("gl_link_program");
        },
        Operation::UseProgram => {
            reveal_strlit("gl_use_program");
        },
        Operation::DeleteShader => {
            reveal_strlit("gl_delete_shader");
        },
        Operation::GenBuffers => {
            reveal_strlit("gl_gen_buffers");
        },
        Operation::BindBuffer => {
            reveal_strlit("gl_bind_buffer");
        },
        Operation::BufferData => {
            reveal_strlit("gl_buffer_data");
        },
        Operation::GenVertexArrays => {
            reveal_strlit("gl_gen_vertex_arrays");
        },
        Operation::BindVertexArray => {
            reveal_strlit("gl_bind_vertex_array");
        },
        Operation::VertexAttribPointer => {
            reveal_strlit("gl_vertex_attrib_pointer");
        },
        Operation::EnableVertexAttribArray => {
            reveal_strlit("gl_enable_vertex_attrib_array");
        },
        Operation::GetUniformLocation => {
            reveal_strlit("gl_get_uniform_location");
        },
        Operation::Uniform4f => {
            reveal_strlit("gl_uniform_4f");
        },
        Operation::GenTextures => {
            reveal_strlit("gl_gen_textures");
        },
        Operation::BindTexture => {
            reveal_strlit("gl_bind_texture");
        },
        Operation::TexImage2D => {
            reveal_strlit("gl_tex_image_2d");
        },
        Operation::GenerateMipmap => {
            reveal_strlit("gl_generate_mipmap");
        },
        Operation::TexParameteri => {
            reveal_strlit("gl_tex_parameter_i");
        },
        Operation::DrawArrays => {
            reveal_strlit("gl_draw_arrays");
        },
    }
}

/// No two operations share a name.
pub proof fn lemma_names_distinct(a: Operation, b: Operation)
    requires
        a.spec_name() == b.spec_name(),
    ensures
        a == b,
{
    lemma_name_mark(a);
    lemma_name_mark(b);
}

} // verus!
