//! The words in which an error is told to the author of a script: which
//! argument was turned down, counted from zero, and what was expected in its
//! place.

use vstd::prelude::*;
use crate::error::{CallError, ExtractError};
use crate::value::Kind;

verus! {

/// The character of the decimal digit `d`.
pub open spec fn digit(d: nat) -> char {
    if d == 0 {
        '0'
    } else if d == 1 {
        '1'
    } else if d == 2 {
        '2'
    } else if d == 3 {
        '3'
    } else if d == 4 {
        '4'
    } else if d == 5 {
        '5'
    } else if d == 6 {
        '6'
    } else if d == 7 {
        '7'
    } else if d == 8 {
        '8'
    } else {
        '9'
    }
}

/// `n` in decimal digits, without leading zeros.
pub open spec fn decimal(n: nat) -> Seq<char>
    decreases n,
{
    if n < 10 {
        seq![digit(n)]
    } else {
        decimal(n / 10).push(digit(n % 10))
    }
}

/// The text of one decimal digit.
fn digit_text(d: usize) -> (text: &'static str)
    requires
        d < 10,
    ensures
        text@ == seq![digit(d as nat)],
{
    proof {
        reveal_strlit("0");
        reveal_strlit("1");
        reveal_strlit("2");
        reveal_strlit("3");
        reveal_strlit("4");
        reveal_strlit("5");
        reveal_strlit("6");
        reveal_strlit("7");
        reveal_strlit("8");
        reveal_strlit("9");
    }
    let text = if d == 0 {
        "0"
    } else if d == 1 {
        "1"
    } else if d == 2 {
        "2"
    } else if d == 3 {
        "3"
    } else if d == 4 {
        "4"
    } else if d == 5 {
        "5"
    } else if d == 6 {
        "6"
    } else if d == 7 {
        "7"
    } else if d == 8 {
        "8"
    } else {
        "9"
    };
    proof {
        assert(text@ =~= seq![digit(d as nat)]);
    }
    text
}

/// Appends `n` in decimal digits to `out`.
fn push_decimal(out: &mut String, n: usize)
    ensures
        final(out)@ == old(out)@ + decimal(n as nat),
    decreases n,
{
    if n >= 10 {
        push_decimal(out, n / 10);
    }
    out.append(digit_text(n % 10));
    proof {
        if n >= 10 {
            assert(old(out)@ + decimal((n / 10) as nat) + seq![digit((n % 10) as nat)] =~= old(
                out,
            )@ + decimal(n as nat));
        }
    }
}

impl Kind {
    /// How a script author is told that a value of this kind was expected.
    pub open spec fn spec_phrase(self) -> Seq<char> {
        match self {
            Kind::Null => "null"@,
            Kind::Boolean => "a boolean"@,
            Kind::Integer => "an integer"@,
            Kind::Float => "a number"@,
            Kind::String => "a string"@,
            Kind::List => "a list"@,
        }
    }

    /// How a script author is told that a value of this kind was expected.
    pub fn phrase(self) -> (text: &'static str)
        ensures
            text@ == self.spec_phrase(),
    {
        match self {
            Kind::Null => "null",
            Kind::Boolean => "a boolean",
            Kind::Integer => "an integer",
            Kind::Float => "a number",
            Kind::String => "a string",
            Kind::List => "a list",
        }
    }
}

impl ExtractError {
    /// The message of this error: what was expected, and for an element of a
    /// list, at which index.
    pub open spec fn spec_message(self) -> Seq<char> {
        match self {
            ExtractError::TypeMismatch { expected } => "expected "@ + expected.spec_phrase(),
            ExtractError::NotAList => "expected a list"@,
            ExtractError::ElementMismatch { index, expected } => "element "@ + decimal(
                index as nat,
            ) + ": expected "@ + expected.spec_phrase(),
            ExtractError::Encoding => "expected a string without a null character"@,
        }
    }

    /// The message of this error.
    pub fn message(&self) -> (text: String)
        ensures
            text@ == self.spec_message(),
    {
        match *self {
            ExtractError::TypeMismatch { expected } => {
                let mut text = String::from_str("expected ");
                text.append(expected.phrase());
                text
            },
            ExtractError::NotAList => String::from_str("expected a list"),
            ExtractError::ElementMismatch { index, expected } => {
                let mut text = String::from_str("element ");
                push_decimal(&mut text, index);
                text.append(": expected ");
                text.append(expected.phrase());
                text
            },
            ExtractError::Encoding => {
                String::from_str("expected a string without a null character")
            },
        }
    }
}

impl CallError {
    /// The message of this error: the number of arguments that the operation
    /// takes, or the position of the argument that was turned down and what
    /// was expected there.
    pub open spec fn spec_message(self) -> Seq<char> {
        match self {
            CallError::Arity { expected, found } => "expected "@ + decimal(expected as nat)
                + " arguments, found "@ + decimal(found as nat),
            CallError::Argument { position, cause } => "argument "@ + decimal(position as nat)
                + ": "@ + cause.spec_message(),
        }
    }

    /// The message of this error.
    pub fn message(&self) -> (text: String)
        ensures
            text@ == self.spec_message(),
    {
        match *self {
            CallError::Arity { expected, found } => {
                let mut text = String::from_str("expected ");
                push_decimal(&mut text, expected);
                text.append(" arguments, found ");
                push_decimal(&mut text, found);
                text
            },
            CallError::Argument { position, cause } => {
                let mut text = String::from_str("argument ");
                push_decimal(&mut text, position);
                text.append(": ");
                let reason = cause.message();
                text.append(reason.as_str());
                text
            },
        }
    }
}

} // verus!
