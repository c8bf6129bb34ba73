//! Why a value, or a whole call, was turned down.

use vstd::prelude::*;
use crate::value::Kind;

verus! {

/// Why a typed extractor turned a value down.
#[derive(Clone, Copy, Debug, PartialEq, Eq, Structural)]
pub enum ExtractError {
    /// The value is not of the kind that the extractor asks for.
    TypeMismatch { expected: Kind },
    /// A buffer was asked for and the value is not a list.
    NotAList,
    /// The element at `index` of a list is not of the kind that the buffer
    /// holds. Elements are tried in list order, so every element before
    /// `index` was of that kind.
    ElementMismatch { index: usize, expected: Kind },
    /// The text holds a null character, so no null-terminated form of it
    /// exists.
    Encoding,
}

impl ExtractError {
    /// Whether the error says that a value, or an element of a list, is of
    /// the wrong kind.
    pub open spec fn is_type_mismatch(self) -> bool {
        self is TypeMismatch || self is ElementMismatch
    }
}

/// Why an operation was not carried out.
#[derive(Clone, Copy, Debug, PartialEq, Eq, Structural)]
pub enum CallError {
    /// The operation takes `expected` arguments and was given `found`.
    Arity { expected: usize, found: usize },
    /// The argument at `position`, counted from zero, was turned down.
    Argument { position: usize, cause: ExtractError },
}

impl CallError {
    /// Whether the error says that an argument, or an element of a list
    /// argument, is of the wrong kind.
    pub open spec fn is_type_mismatch(self) -> bool {
        self matches CallError::Argument { cause, .. } && cause.is_type_mismatch()
    }
}

} // verus!
