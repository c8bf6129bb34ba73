//! The way back: from what a native entry point returned to the value that
//! the host is answered with.

use vstd::prelude::*;
use crate::call::NativeReturn;
use crate::catalog::Operation;
use crate::value::{Value, ValueView};

verus! {

impl Operation {
    /// Whether `ret` is of the shape that the native entry point of this
    /// operation hands back.
    pub open spec fn yields(self, ret: NativeReturn) -> bool {
        match self {
            Operation::CreateShader
            | Operation::CreateProgram
            | Operation::GenBuffers
            | Operation::GenVertexArrays
            | Operation::GenTextures => ret is Handle,
            Operation::GetUniformLocation => ret is Location,
            _ => ret is Nothing,
        }
    }

    /// The value that this operation answers with when the native side hands
    /// back `ret`: a handle or a location as the integer it is, truth for a
    /// load that was issued, and null where there is nothing to tell.
    pub open spec fn answer(self, ret: NativeReturn) -> ValueView {
        match ret {
            NativeReturn::Handle(handle) => ValueView::Integer(handle as i64),
            NativeReturn::Location(location) => ValueView::Integer(location as i64),
            NativeReturn::Nothing => if self == Operation::Load {
                ValueView::Boolean(true)
            } else {
                ValueView::Null
            },
        }
    }

    /// Turns what the native side handed back into the host value that this
    /// operation answers with.
    pub fn wrap_result(self, ret: NativeReturn) -> (v: Value)
        ensures
            v@ == self.answer(ret),
    {
        match ret {
            NativeReturn::Handle(handle) => Value::Integer(handle as i64),
            NativeReturn::Location(location) => Value::Integer(location as i64),
            NativeReturn::Nothing => match self {
                Operation::Load => Value::Boolean(true),
                _ => Value::Null,
            },
        }
    }
}

/// Where the native side hands back what the entry point of an operation
/// returns, the answer is of the kind that the catalog gives for the
/// operation.
pub proof fn lemma_answer_kind(op: Operation, ret: NativeReturn)
    requires
        op.yields(ret),
    ensures
        op.answer(ret).kind() == op.spec_result_kind(),
{
}

/// A handle or a location reaches the host unaltered: narrowing the answer
/// back to the native width gives what the native side handed over.
pub proof fn lemma_answer_keeps_handle(op: Operation, ret: NativeReturn)
    ensures
        ret matches NativeReturn::Handle(handle) ==> op.answer(ret) == ValueView::Integer(
            handle as i64,
        ) && handle as i64 == handle as int,
        ret matches NativeReturn::Location(location) ==> op.answer(ret) == ValueView::Integer(
            location as i64,
        ) && location as i64 == location as int,
{
}

} // verus!
