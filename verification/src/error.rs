//! The failures of a call, and their wording.

use crate::sys::AEBuildError;
use vstd::prelude::*;

verus! {

/// The character of a decimal digit.
pub open spec fn digit_char(d: nat) -> char
    recommends
        d < 10,
{
    ('0' as u8 + d) as char
}

/// A natural number in decimal notation, without leading zeros.
pub open spec fn decimal_text(n: nat) -> Seq<char>
    decreases n,
{
    if n < 10 {
        seq![digit_char(n)]
    } else {
        decimal_text(n / 10).push(digit_char(n % 10))
    }
}

/// An integer in decimal notation, with `-` before a negative one.
pub open spec fn signed_decimal_text(n: int) -> Seq<char> {
    if n < 0 {
        seq!['-'] + decimal_text((-n) as nat)
    } else {
        decimal_text(n as nat)
    }
}

fn digit_str(d: u64) -> (r: &'static str)
    requires
        d < 10,
    ensures
        r@ == seq![digit_char(d as nat)],
{
    proof {
        reveal_strlit("0");
        reveal_strlit("1");
        reveal_strlit("2");
        reveal_strlit("3");
        reveal_strlit("4");
        reveal_strlit("5");
        reveal_strlit("6");
        reveal_strlit("7");
        reveal_strlit("8");
        reveal_strlit("9");
    }
    let r = if d == 0 {
        "0"
    } else if d == 1 {
        "1"
    } else if d == 2 {
        "2"
    } else if d == 3 {
        "3"
    } else if d == 4 {
        "4"
    } else if d == 5 {
        "5"
    } else if d == 6 {
        "6"
    } else if d == 7 {
        "7"
    } else if d == 8 {
        "8"
    } else {
        "9"
    };
    assert(r@ =~= seq![digit_char(d as nat)]);
    r
}

/// Appends `n` in decimal notation to `out`.
pub fn append_decimal(out: &mut String, n: u64)
    ensures
        final(out)@ == old(out)@ + decimal_text(n as nat),
    decreases n,
{
    if n < 10 {
        out.append(digit_str(n));
    } else {
        append_decimal(out, n / 10);
        out.append(digit_str(n % 10));
        assert(final(out)@ =~= old(out)@ + decimal_text(n as nat));
    }
}

/// Appends `n` in decimal notation, signed, to `out`.
pub fn append_signed_decimal(out: &mut String, n: i32)
    ensures
        final(out)@ == old(out)@ + signed_decimal_text(n as int),
{
    if n < 0 {
        proof {
            reveal_strlit("-");
        }
        out.append("-");
        let magnitude: u64 = (-(n as i64)) as u64;
        append_decimal(out, magnitude);
        assert(final(out)@ =~= old(out)@ + signed_decimal_text(n as int));
    } else {
        append_decimal(out, n as u64);
    }
}

/// The in-memory type that a reply was to be read as.
#[derive(Clone, Copy, PartialEq, Eq, Debug, Structural)]
pub enum TypeName {
    /// Text.
    String,
    /// A truth value.
    Bool,
    /// A 64-bit floating point number.
    F64,
    /// A 16-bit signed integer.
    I16,
    /// A 32-bit signed integer.
    I32,
    /// A 64-bit signed integer.
    I64,
    /// A symbol of an enumeration.
    Enum,
}

impl TypeName {
    /// The name as it stands in a message.
    pub open spec fn text(self) -> Seq<char> {
        match self {
            TypeName::String => "String"@,
            TypeName::Bool => "bool"@,
            TypeName::F64 => "f64"@,
            TypeName::I16 => "i16"@,
            TypeName::I32 => "i32"@,
            TypeName::I64 => "i64"@,
            TypeName::Enum => "enum"@,
        }
    }

    /// The name as it stands in a message.
    pub fn name(&self) -> (r: &'static str)
        ensures
            r@ == self.text(),
    {
        match self {
            TypeName::String => "String",
            TypeName::Bool => "bool",
            TypeName::F64 => "f64",
            TypeName::I16 => "i16",
            TypeName::I32 => "i32",
            TypeName::I64 => "i64",
            TypeName::Enum => "enum",
        }
    }
}

/// The transport could not build an event or a descriptor from a query.
#[derive(Clone, Copy, PartialEq, Eq, Debug, Structural)]
pub struct EventBuildError {
    code: u32,
    pos: u32,
}

impl EventBuildError {
    /// The kind of failure.
    pub closed spec fn spec_code(self) -> u32 {
        self.code
    }

    /// The offset in the query at which the failure was found.
    pub closed spec fn spec_pos(self) -> u32 {
        self.pos
    }

    /// The wording of the failure.
    pub open spec fn text(self) -> Seq<char> {
        "error "@ + decimal_text(self.spec_code() as nat) + " while building event at position "@
            + decimal_text(self.spec_pos() as nat)
    }

    /// The failure that the transport reported in `err`, as the error of a
    /// call.
    pub closed spec fn failure(err: AEBuildError) -> EventError {
        EventError::BuildFailed(EventBuildError { code: err.error, pos: err.error_pos })
    }

    /// The failure that the transport reported in `err`, as the error of a
    /// call.
    pub fn new(err: AEBuildError) -> (r: EventError)
        ensures
            r == Self::failure(err),
            r matches EventError::BuildFailed(e) && e.spec_code() == err.error && e.spec_pos()
                == err.error_pos,
    {
        EventError::BuildFailed(EventBuildError { code: err.error, pos: err.error_pos })
    }

    /// The kind of failure.
    pub fn code(&self) -> (r: u32)
        ensures
            r == self.spec_code(),
    {
        self.code
    }

    /// The offset in the query at which the failure was found.
    pub fn position(&self) -> (r: u32)
        ensures
            r == self.spec_pos(),
    {
        self.pos
    }

    /// The offset in the query at which the failure was found.
    pub fn pos(&self) -> (r: u32)
        ensures
            r == self.spec_pos(),
    {
        self.pos
    }

    /// What kind of failure this is, in a few words.
    pub fn description(&self) -> (r: &'static str)
        ensures
            r@ == "An error occurred while building the event"@,
    {
        "An error occurred while building the event"
    }

    /// The wording of the failure.
    pub fn to_string(&self) -> (r: String)
        ensures
            r@ == self.text(),
    {
        let mut out = String::from_str("error ");
        append_decimal(&mut out, self.code as u64);
        out.append(" while building event at position ");
        append_decimal(&mut out, self.pos as u64);
        out
    }
}

/// Why a call failed. Every failure of a call is one of these, and none is
/// retried or replaced by a default.
#[derive(Clone, Copy, PartialEq, Eq, Debug, Structural)]
pub enum EventError {
    /// The query could not be formed, before anything was handed to the
    /// transport.
    InvalidGrammar,
    /// The transport rejected the query.
    BuildFailed(EventBuildError),
    /// The transport could not deliver the event or read the reply.
    TransportFailed {
        /// The status that the transport reported.
        status: i32,
    },
    /// The reply cannot be read as the type asked for.
    DecodeMismatch {
        /// The type asked for.
        expected: TypeName,
    },
    /// A text could not be encoded.
    EncodingFailed,
}

impl EventError {
    /// The wording of the failure.
    pub open spec fn text(self) -> Seq<char> {
        match self {
            EventError::InvalidGrammar => "Query cannot be encoded"@,
            EventError::BuildFailed(e) => e.text(),
            EventError::TransportFailed { status } => "Transport failed with status "@
                + signed_decimal_text(status as int),
            EventError::DecodeMismatch { expected } => "Value cannot be read as "@
                + expected.text(),
            EventError::EncodingFailed => "Text cannot be encoded"@,
        }
    }

    /// The wording of the failure.
    pub fn to_string(&self) -> (r: String)
        ensures
            r@ == self.text(),
    {
        match self {
            EventError::InvalidGrammar => String::from_str("Query cannot be encoded"),
            EventError::BuildFailed(e) => e.to_string(),
            EventError::TransportFailed { status } => {
                let mut out = String::from_str("Transport failed with status ");
                append_signed_decimal(&mut out, *status);
                out
            },
            EventError::DecodeMismatch { expected } => {
                let mut out = String::from_str("Value cannot be read as ");
                out.append(expected.name());
                out
            },
            EventError::EncodingFailed => String::from_str("Text cannot be encoded"),
        }
    }
}

} // verus!
