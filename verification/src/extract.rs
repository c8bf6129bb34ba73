//! The typed extractors: from a host value to the scalar that a native entry
//! point takes, or a reason why the value cannot stand for one.
//!
//! No extractor converts between kinds, with one exception: an integer is
//! accepted where a floating-point number is asked for. Narrowing an integer
//! to a native width keeps its low bits and never fails.

use vstd::prelude::*;
use crate::error::ExtractError;
use crate::native::{native_false, native_true};
use crate::value::{Kind, Value, ValueView};

verus! {

/// A number on its way to a native floating-point parameter: the host's
/// integer, or the bit pattern of the host's double. The native boundary
/// narrows either to the native width.
#[derive(Clone, Copy, Debug, PartialEq, Eq, Structural)]
pub enum Number {
    Integer(i64),
    Float(u64),
}

/// Whether `v` can stand where a value of kind `wanted` is asked for: it is of
/// that kind, or it is an integer and a float is asked for.
pub open spec fn fits(v: ValueView, wanted: Kind) -> bool {
    v.kind() == wanted || (wanted == Kind::Float && v.kind() == Kind::Integer)
}

/// The integer that `v` holds.
pub open spec fn int_of(v: ValueView) -> Result<i64, ExtractError> {
    match v {
        ValueView::Integer(i) => Ok(i),
        _ => Err(ExtractError::TypeMismatch { expected: Kind::Integer }),
    }
}

/// The number that `v` holds: integers and floats are both numbers.
pub open spec fn number_of(v: ValueView) -> Result<Number, ExtractError> {
    match v {
        ValueView::Integer(i) => Ok(Number::Integer(i)),
        ValueView::Float(bits) => Ok(Number::Float(bits)),
        _ => Err(ExtractError::TypeMismatch { expected: Kind::Float }),
    }
}

/// The boolean that `v` holds.
pub open spec fn bool_of(v: ValueView) -> Result<bool, ExtractError> {
    match v {
        ValueView::Boolean(b) => Ok(b),
        _ => Err(ExtractError::TypeMismatch { expected: Kind::Boolean }),
    }
}

/// The text that `v` holds.
pub open spec fn text_of(v: ValueView) -> Result<Seq<char>, ExtractError> {
    match v {
        ValueView::String(text) => Ok(text),
        _ => Err(ExtractError::TypeMismatch { expected: Kind::String }),
    }
}

/// The native encoding of a boolean: one of two bytes.
pub open spec fn native_bool(b: bool) -> u8 {
    if b {
        1
    } else {
        0
    }
}

/// The integer that `v` holds, narrowed to 32 bits, signed: its low 32 bits.
pub open spec fn i32_of(v: ValueView) -> Result<i32, ExtractError> {
    match int_of(v) {
        Ok(i) => Ok(i as i32),
        Err(e) => Err(e),
    }
}

/// The integer that `v` holds, narrowed to 32 bits, unsigned: its low 32
/// bits.
pub open spec fn u32_of(v: ValueView) -> Result<u32, ExtractError> {
    match int_of(v) {
        Ok(i) => Ok(i as u32),
        Err(e) => Err(e),
    }
}

/// The integer that `v` holds, narrowed to the width of an address.
pub open spec fn usize_of(v: ValueView) -> Result<usize, ExtractError> {
    match int_of(v) {
        Ok(i) => Ok(i as usize),
        Err(e) => Err(e),
    }
}

/// The boolean that `v` holds, in its native encoding.
pub open spec fn native_bool_of(v: ValueView) -> Result<u8, ExtractError> {
    match bool_of(v) {
        Ok(b) => Ok(native_bool(b)),
        Err(e) => Err(e),
    }
}

impl Value {
    /// The integer that this value holds; any other kind is a mismatch.
    pub fn as_int(&self) -> (r: Result<i64, ExtractError>)
        ensures
            r == int_of(self@),
    {
        match self {
            Value::Integer(i) => Ok(*i),
            _ => Err(ExtractError::TypeMismatch { expected: Kind::Integer }),
        }
    }

    /// The number that this value holds, integer or float; any other kind is
    /// a mismatch.
    pub fn as_float(&self) -> (r: Result<Number, ExtractError>)
        ensures
            r == number_of(self@),
    {
        match self {
            Value::Integer(i) => Ok(Number::Integer(*i)),
            Value::Float(bits) => Ok(Number::Float(*bits)),
            _ => Err(ExtractError::TypeMismatch { expected: Kind::Float }),
        }
    }

    /// The boolean that this value holds; any other kind is a mismatch.
    pub fn as_bool(&self) -> (r: Result<bool, ExtractError>)
        ensures
            r == bool_of(self@),
    {
        match self {
            Value::Boolean(b) => Ok(*b),
            _ => Err(ExtractError::TypeMismatch { expected: Kind::Boolean }),
        }
    }

    /// The text that this value holds; any other kind is a mismatch.
    pub fn as_str(&self) -> (r: Result<&str, ExtractError>)
        ensures
            match r {
                Ok(text) => text_of(self@) == Ok::<Seq<char>, ExtractError>(text@),
                Err(e) => text_of(self@) == Err::<Seq<char>, ExtractError>(e),
            },
    {
        match self {
            Value::String(text) => Ok(text.as_str()),
            _ => Err(ExtractError::TypeMismatch { expected: Kind::String }),
        }
    }

    /// The integer that this value holds, narrowed to 32 bits, signed.
    pub fn to_i32(&self) -> (r: Result<i32, ExtractError>)
        ensures
            r == i32_of(self@),
    {
        match self.as_int() {
            Ok(i) => Ok(#[verifier::truncate] (i as i32)),
            Err(e) => Err(e),
        }
    }

    /// The integer that this value holds, narrowed to 32 bits, unsigned.
    pub fn to_u32(&self) -> (r: Result<u32, ExtractError>)
        ensures
            r == u32_of(self@),
    {
        match self.as_int() {
            Ok(i) => Ok(#[verifier::truncate] (i as u32)),
            Err(e) => Err(e),
        }
    }

    /// The integer that this value holds, narrowed to the width of an
    /// address.
    pub fn to_usize(&self) -> (r: Result<usize, ExtractError>)
        ensures
            r == usize_of(self@),
    {
        match self.as_int() {
            Ok(i) => Ok(#[verifier::truncate] (i as usize)),
            Err(e) => Err(e),
        }
    }

    /// The boolean that this value holds, in its native encoding.
    pub fn to_native_bool(&self) -> (r: Result<u8, ExtractError>)
        ensures
            r == native_bool_of(self@),
    {
        match self.as_bool() {
            Ok(b) => Ok(
                if b {
                    native_true()
                } else {
                    native_false()
                },
            ),
            Err(e) => Err(e),
        }
    }
}

/// What narrowing does to an integer: the result is the integer modulo two
/// to the power of the width, taken as a signed number where the native type
/// is signed. An integer that the native type can hold comes through as it
/// is.
pub proof fn lemma_narrowing(i: i64)
    ensures
        (i as u8) as int == (i as int) % 0x100,
        (i as u32) as int == (i as int) % 0x1_0000_0000,
        (i as i32) as int == if (i as int) % 0x1_0000_0000 < 0x8000_0000 {
            (i as int) % 0x1_0000_0000
        } else {
            (i as int) % 0x1_0000_0000 - 0x1_0000_0000
        },
        0 <= i <= u8::MAX ==> (i as u8) as int == i,
        0 <= i <= u32::MAX ==> (i as u32) as int == i,
        i32::MIN <= i <= i32::MAX ==> (i as i32) as int == i,
{
    assert((i as u8) as int == (i as int) % 0x100) by (bit_vector);
    assert((i as u32) as int == (i as int) % 0x1_0000_0000) by (bit_vector);
    assert((i as i32) as int == if (i as int) % 0x1_0000_0000 < 0x8000_0000 {
        (i as int) % 0x1_0000_0000
    } else {
        (i as int) % 0x1_0000_0000 - 0x1_0000_0000
    }) by (bit_vector);
}

} // verus!
