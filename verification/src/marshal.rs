//! What comes of invoking an operation: which native call its arguments make,
//! or which of them is turned down.
//!
//! The number of the arguments is checked first. Then each argument is held
//! against what the catalog asks for at its place, in order, and the first
//! that is turned down decides the error.

use vstd::prelude::*;
use crate::buffer::{
    bytes_of, lemma_bytes_of_integer_list, lemma_numbers_of_numeric_list, numbers_of,
};
use crate::call::NativeCallView;
use crate::catalog::{Operation, Param};
use crate::error::{CallError, ExtractError};
use crate::extract::{bool_of, fits, int_of, native_bool, number_of, Number};
use crate::text::native_text_of;
use crate::value::{Kind, ValueView};

verus! {

/// The error of `r`, if it is one.
pub open spec fn failure<T>(r: Result<T, ExtractError>) -> Option<ExtractError> {
    match r {
        Ok(_) => None,
        Err(e) => Some(e),
    }
}

/// Why `v` cannot be the argument that `param` asks for, if it cannot.
pub open spec fn fault(param: Param, v: ValueView) -> Option<ExtractError> {
    match param {
        Param::Integer => failure(int_of(v)),
        Param::Float => failure(number_of(v)),
        Param::Boolean => failure(bool_of(v)),
        Param::Text => failure(native_text_of(v)),
        Param::FloatList => failure(numbers_of(v)),
        Param::ByteList => failure(bytes_of(v)),
    }
}

/// The first argument at or after `from` that is turned down, with the
/// reason. The arguments are as many as the parameters.
pub open spec fn first_fault(params: Seq<Param>, args: Seq<ValueView>, from: int) -> Option<
    CallError,
>
    decreases params.len() - from,
{
    if from >= params.len() {
        None
    } else {
        match fault(params[from], args[from]) {
            Some(cause) => Some(CallError::Argument { position: from as usize, cause }),
            None => first_fault(params, args, from + 1),
        }
    }
}

/// Why a call with `args` is not carried out, if it is not: the number of
/// arguments is checked first, then each argument in order.
pub open spec fn rejection(params: Seq<Param>, args: Seq<ValueView>) -> Option<CallError> {
    if args.len() != params.len() {
        Some(CallError::Arity { expected: params.len() as usize, found: args.len() as usize })
    } else {
        first_fault(params, args, 0)
    }
}

/// The integer at `i`, narrowed to 32 bits, signed.
pub open spec fn i32_at(args: Seq<ValueView>, i: int) -> i32 {
    int_of(args[i])->Ok_0 as i32
}

/// The integer at `i`, narrowed to 32 bits, unsigned.
pub open spec fn u32_at(args: Seq<ValueView>, i: int) -> u32 {
    int_of(args[i])->Ok_0 as u32
}

/// The integer at `i`, narrowed to the width of an address.
pub open spec fn usize_at(args: Seq<ValueView>, i: int) -> usize {
    int_of(args[i])->Ok_0 as usize
}

/// The number at `i`.
pub open spec fn number_at(args: Seq<ValueView>, i: int) -> Number {
    number_of(args[i])->Ok_0
}

/// The boolean at `i`, in its native encoding.
pub open spec fn flag_at(args: Seq<ValueView>, i: int) -> u8 {
    native_bool(bool_of(args[i])->Ok_0)
}

/// The text at `i`, null-terminated.
pub open spec fn text_at(args: Seq<ValueView>, i: int) -> Seq<u8> {
    native_text_of(args[i])->Ok_0
}

impl Operation {
    /// The native call that this operation makes of `args`, where none of
    /// them is turned down: each argument in the type and at the place that
    /// the entry point takes it. An operation that creates a native object
    /// asks for exactly one.
    pub open spec fn call(self, args: Seq<ValueView>) -> NativeCallView {
        match self {
            Operation::Load => NativeCallView::Load { loader: usize_at(args, 0) },
            Operation::Viewport => NativeCallView::Viewport {
                x: i32_at(args, 0),
                y: i32_at(args, 1),
                width: i32_at(args, 2),
                height: i32_at(args, 3),
            },
            Operation::ClearColor => NativeCallView::ClearColor {
                red: number_at(args, 0),
                green: number_at(args, 1),
                blue: number_at(args, 2),
                alpha: number_at(args, 3),
            },
            Operation::Clear => NativeCallView::Clear { mask: u32_at(args, 0) },
            Operation::CreateShader => NativeCallView::CreateShader { kind: u32_at(args, 0) },
            Operation::ShaderSource => NativeCallView::ShaderSource {
                shader: u32_at(args, 0),
                source: text_at(args, 1),
            },
            Operation::CompileShader => NativeCallView::CompileShader { shader: u32_at(args, 0) },
            Operation::CreateProgram => NativeCallView::CreateProgram,
            Operation::AttachShader => NativeCallView::AttachShader {
                program: u32_at(args, 0),
                shader: u32_at(args, 1),
            },
            Operation::LinkProgram => NativeCallView::LinkProgram { program: u32_at(args, 0) },
            Operation::UseProgram => NativeCallView::UseProgram { program: u32_at(args, 0) },
            Operation::DeleteShader => NativeCallView::DeleteShader { shader: u32_at(args, 0) },
            Operation::GenBuffers => NativeCallView::GenBuffers { count: 1 },
            Operation::BindBuffer => NativeCallView::BindBuffer {
                target: u32_at(args, 0),
                buffer: u32_at(args, 1),
            },
            Operation::BufferData => NativeCallView::BufferData {
                target: u32_at(args, 0),
                data: numbers_of(args[1])->Ok_0,
                usage: u32_at(args, 2),
            },
            Operation::GenVertexArrays => NativeCallView::GenVertexArrays { count: 1 },
            Operation::BindVertexArray => NativeCallView::BindVertexArray {
                array: u32_at(args, 0),
            },
            Operation::VertexAttribPointer => NativeCallView::VertexAttribPointer {
                index: u32_at(args, 0),
                size: i32_at(args, 1),
                kind: u32_at(args, 2),
                normalized: flag_at(args, 3),
                stride: i32_at(args, 4),
                offset: usize_at(args, 5),
            },
            Operation::EnableVertexAttribArray => NativeCallView::EnableVertexAttribArray {
                index: u32_at(args, 0),
            },
            Operation::GetUniformLocation => NativeCallView::GetUniformLocation {
                program: u32_at(args, 0),
                name: text_at(args, 1),
            },
            Operation::Uniform4f => NativeCallView::Uniform4f {
                location: i32_at(args, 0),
                v0: number_at(args, 1),
                v1: number_at(args, 2),
                v2: number_at(args, 3),
                v3: number_at(args, 4),
            },
            Operation::GenTextures => NativeCallView::GenTextures { count: 1 },
            Operation::BindTexture => NativeCallView::BindTexture {
                target: u32_at(args, 0),
                texture: u32_at(args, 1),
            },
            Operation::TexImage2D => NativeCallView::TexImage2D {
                target: u32_at(args, 0),
                level: i32_at(args, 1),
                internal_format: i32_at(args, 2),
                width: i32_at(args, 3),
                height: i32_at(args, 4),
                border: i32_at(args, 5),
                format: u32_at(args, 6),
                kind: u32_at(args, 7),
                pixels: bytes_of(args[8])->Ok_0,
            },
            Operation::GenerateMipmap => NativeCallView::GenerateMipmap { target: u32_at(args, 0) },
            Operation::TexParameteri => NativeCallView::TexParameteri {
                target: u32_at(args, 0),
                pname: u32_at(args, 1),
                param: i32_at(args, 2),
            },
            Operation::DrawArrays => NativeCallView::DrawArrays {
                mode: u32_at(args, 0),
                first: i32_at(args, 1),
                count: i32_at(args, 2),
            },
        }
    }

    /// What comes of invoking this operation with `args`: the native call to
    /// make, or why none is made.
    pub open spec fn outcome(self, args: Seq<ValueView>) -> Result<NativeCallView, CallError> {
        match rejection(self.params(), args) {
            Some(e) => Err(e),
            None => Ok(self.call(args)),
        }
    }
}

/// Whether `v` is of the kind that `param` documents. For a list, every
/// element is of the kind that the buffer holds.
pub open spec fn documented(param: Param, v: ValueView) -> bool {
    match param {
        Param::Integer => v is Integer,
        Param::Float => v is Float || v is Integer,
        Param::Boolean => v is Boolean,
        Param::Text => v is String,
        Param::FloatList => v matches ValueView::List(items) && forall|i: int|
            0 <= i < items.len() ==> fits(#[trigger] items[i], Kind::Float),
        Param::ByteList => v matches ValueView::List(items) && forall|i: int|
            0 <= i < items.len() ==> fits(#[trigger] items[i], Kind::Integer),
    }
}

/// Whether no text among `args`, where the catalog asks for one, holds a null
/// character.
pub open spec fn no_null_in_texts(params: Seq<Param>, args: Seq<ValueView>) -> bool {
    forall|i: int|
        0 <= i < args.len() && params[i] == Param::Text ==> !(#[trigger] args[i])->String_0.contains(
            '\0',
        )
}

/// A value of the documented kind is never turned down for its kind: the one
/// thing that can still stand against it is a null character in a text.
pub proof fn lemma_fault_of_documented(param: Param, v: ValueView)
    requires
        documented(param, v),
    ensures
        fault(param, v) is None || fault(param, v) == Some(ExtractError::Encoding),
        fault(param, v) is Some <==> param == Param::Text && v->String_0.contains('\0'),
{
    match param {
        Param::FloatList => {
            lemma_numbers_of_numeric_list(v->List_0);
        },
        Param::ByteList => {
            lemma_bytes_of_integer_list(v->List_0);
        },
        _ => {},
    }
}

/// `first_fault` names the first argument at or after `from` that is turned
/// down, with its reason; it is `None` exactly if none is.
pub proof fn lemma_first_fault(params: Seq<Param>, args: Seq<ValueView>, from: int)
    requires
        0 <= from <= params.len() <= usize::MAX,
    ensures
        match first_fault(params, args, from) {
            None => forall|i: int|
                from <= i < params.len() ==> (#[trigger] fault(params[i], args[i])) is None,
            Some(e) => e matches CallError::Argument { position, cause } && from <= position
                < params.len() && fault(params[position as int], args[position as int]) == Some(
                cause,
            ) && forall|i: int|
                from <= i < position ==> (#[trigger] fault(params[i], args[i])) is None,
        },
    decreases params.len() - from,
{
    if from < params.len() && fault(params[from], args[from]) is None {
        lemma_first_fault(params, args, from + 1);
    }
}

/// An operation that is given as many arguments as it takes, each of the
/// documented kind, never fails for the number of its arguments or for the
/// kind of one. It makes its native call unless a text among the arguments
/// holds a null character, and then that is what the error says.
pub proof fn lemma_documented_call(op: Operation, args: Seq<ValueView>)
    requires
        args.len() == op.params().len(),
        forall|i: int| 0 <= i < args.len() ==> documented(#[trigger] op.params()[i], args[i]),
    ensures
        op.outcome(args) matches Err(e) ==> {
            &&& !(e is Arity)
            &&& !e.is_type_mismatch()
            &&& e matches CallError::Argument { cause: ExtractError::Encoding, .. }
        },
        no_null_in_texts(op.params(), args) ==> op.outcome(args) == Ok::<NativeCallView, CallError>(
            op.call(args),
        ),
{
    let params = op.params();
    lemma_first_fault(params, args, 0);
    assert forall|i: int| 0 <= i < args.len() implies (fault(params[i], args[i]) is None || fault(
        params[i],
        args[i],
    ) == Some(ExtractError::Encoding)) && (fault(params[i], args[i]) is Some <==> params[i]
        == Param::Text && args[i]->String_0.contains('\0')) by {
        lemma_fault_of_documented(params[i], args[i]);
    }
    if let Some(CallError::Argument { position, cause }) = first_fault(params, args, 0) {
        assert(fault(params[position as int], args[position as int]) == Some(cause));
    }
}

/// An operation that is given a wrong number of arguments fails with the
/// arity error, which names the number it takes: no native call comes of it,
/// whatever the arguments are.
pub proof fn lemma_wrong_count(op: Operation, args: Seq<ValueView>)
    requires
        args.len() != op.params().len(),
    ensures
        op.outcome(args) == Err::<NativeCallView, CallError>(
            CallError::Arity {
                expected: op.params().len() as usize,
                found: args.len() as usize,
            },
        ),
{
}

/// An operation that is given one argument fewer than it takes fails with
/// the arity error, which names the number it takes: no native call comes of
/// it.
pub proof fn lemma_one_argument_short(op: Operation, args: Seq<ValueView>)
    requires
        args.len() + 1 == op.params().len(),
    ensures
        op.outcome(args) == Err::<NativeCallView, CallError>(
            CallError::Arity {
                expected: op.params().len() as usize,
                found: (op.params().len() - 1) as usize,
            },
        ),
{
}

} // verus!
