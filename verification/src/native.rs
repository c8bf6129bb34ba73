//! The constants of the native interface that the bridge hands through.

use vstd::prelude::*;

verus! {

/// The native encoding of a true boolean, `gl::TRUE`. Trusted: the bindings
/// define it as the byte 1.
#[verifier::external_body]
pub(crate) fn native_true() -> (r: u8)
    ensures
        r == 1,
{
    gl::TRUE
}

/// The native encoding of a false boolean, `gl::FALSE`. Trusted: the bindings
/// define it as the byte 0.
#[verifier::external_body]
pub(crate) fn native_false() -> (r: u8)
    ensures
        r == 0,
{
    gl::FALSE
}

} // verus!
