//! A bridge between a dynamically typed host language and the native graphics
//! interface.
//!
//! The host invokes an operation by name with a sequence of its values. The
//! bridge checks the number of the arguments and converts each into the
//! scalar or buffer that the native entry point takes. What comes out is a
//! [`NativeCall`], which the caller carries out at the native boundary, or a
//! [`CallError`], which says which argument was turned down and why. What the
//! native side hands back, a [`NativeReturn`], becomes a host value again.
//!
//! The bridge keeps no state of its own. It does not know which buffer,
//! program or texture is bound, nor whether a handle is still alive: the
//! order of the calls and the life of the handles are the host's to keep.
//! Calls from several threads at once are the host's to prevent.

pub mod answer;
pub mod buffer;
pub mod call;
pub mod catalog;
pub mod error;
pub mod extract;
pub mod marshal;
pub mod message;
mod native;
pub mod table;
pub mod text;
pub mod value;
pub mod wrappers;

pub use crate::buffer::{extract_f32_vec, extract_u8_vec};
pub use crate::call::{NativeCall, NativeReturn};
pub use crate::catalog::{catalog, Operation, Param};
pub use crate::error::{CallError, ExtractError};
pub use crate::extract::Number;
pub use crate::table::{register, OperationTable};
pub use crate::text::c_string;
pub use crate::value::{Kind, Value};
pub use crate::wrappers::{
    gl_attach_shader, gl_bind_buffer, gl_bind_texture, gl_bind_vertex_array, gl_buffer_data,
    gl_clear, gl_clear_color, gl_compile_shader, gl_create_program, gl_create_shader,
    gl_delete_shader, gl_draw_arrays, gl_enable_vertex_attrib_array, gl_gen_buffers,
    gl_gen_textures, gl_gen_vertex_arrays, gl_generate_mipmap, gl_get_uniform_location,
    gl_link_program, gl_load, gl_shader_source, gl_tex_image_2d, gl_tex_parameter_i,
    gl_uniform_4f, gl_use_program, gl_vertex_attrib_pointer, gl_viewport,
};
