//! Errors reported by the Nix C API and by the Boehm garbage collector,
//! decoded from their numeric codes.

use vstd::prelude::*;
use vstd::std_specs::convert::FromSpecImpl;
use vstd::string::StringExecFns;
use crate::text::{append_decimal, decimal_text};
use crate::codes::{
    GC_DUPLICATE, GC_NOT_FOUND, GC_NO_MEMORY, GC_UNIMPLEMENTED, NIX_ERR_KEY, NIX_ERR_NIX_ERROR,
    NIX_ERR_OVERFLOW, NIX_ERR_UNKNOWN,
};

verus! {

/// An error as returned from the Nix API.
#[derive(Debug, Clone, PartialEq, Eq)]
#[non_exhaustive]
pub enum NixError {
    /// An unknown error (`NIX_ERR_UNKNOWN`).
    Unknown(String),
    /// An overflow error (`NIX_ERR_OVERFLOW`).
    Overflow(String),
    /// A key / index access error (`NIX_ERR_KEY`).
    Key(String),
    /// A generic Nix error (`NIX_ERR_NIX_ERROR`).
    Nix(String),
    /// An unknown error code that is not (yet) handled by this crate.
    UnknownErrorCode { code: i32, msg: String },
}

/// The error that the Nix API reports with error code `code` and message
/// `msg`.
pub open spec fn nix_error_of_code(code: i32, msg: String) -> NixError {
    if code == NIX_ERR_NIX_ERROR {
        NixError::Nix(msg)
    } else if code == NIX_ERR_KEY {
        NixError::Key(msg)
    } else if code == NIX_ERR_OVERFLOW {
        NixError::Overflow(msg)
    } else if code == NIX_ERR_UNKNOWN {
        NixError::Unknown(msg)
    } else {
        NixError::UnknownErrorCode { code, msg }
    }
}

/// The error code that a Nix API error was reported with.
pub open spec fn nix_error_code(e: NixError) -> i32 {
    match e {
        NixError::Unknown(_) => NIX_ERR_UNKNOWN,
        NixError::Overflow(_) => NIX_ERR_OVERFLOW,
        NixError::Key(_) => NIX_ERR_KEY,
        NixError::Nix(_) => NIX_ERR_NIX_ERROR,
        NixError::UnknownErrorCode { code, .. } => code,
    }
}

/// The message that a Nix API error carries.
pub open spec fn nix_error_message(e: NixError) -> String {
    match e {
        NixError::Unknown(msg) => msg,
        NixError::Overflow(msg) => msg,
        NixError::Key(msg) => msg,
        NixError::Nix(msg) => msg,
        NixError::UnknownErrorCode { msg, .. } => msg,
    }
}

/// The message text of a Nix API error.
pub open spec fn nix_error_text(e: NixError) -> Seq<char> {
    match e {
        NixError::Unknown(msg) => "an unknown error occurred: "@ + msg@,
        NixError::Overflow(msg) => "an overflow error occurred: "@ + msg@,
        NixError::Key(msg) => "a key / index access error occurred: "@ + msg@,
        NixError::Nix(msg) => "a generic Nix error occurred: "@ + msg@,
        NixError::UnknownErrorCode { code, msg } => "unknown error code "@ + decimal_text(code as int)
            + ": "@ + msg@,
    }
}

impl NixError {
    /// Decodes an error code of the Nix API together with its message;
    /// codes that no variant names are kept in `UnknownErrorCode`.
    pub fn new(code: i32, msg: String) -> (res: Self)
        ensures
            res == nix_error_of_code(code, msg),
    {
        if code == NIX_ERR_NIX_ERROR {
            Self::Nix(msg)
        } else if code == NIX_ERR_KEY {
            Self::Key(msg)
        } else if code == NIX_ERR_OVERFLOW {
            Self::Overflow(msg)
        } else if code == NIX_ERR_UNKNOWN {
            Self::Unknown(msg)
        } else {
            Self::UnknownErrorCode { code, msg }
        }
    }

    /// The error code that the error was reported with.
    pub fn code(&self) -> (res: i32)
        ensures
            res == nix_error_code(*self),
    {
        match self {
            NixError::Unknown(_) => NIX_ERR_UNKNOWN,
            NixError::Overflow(_) => NIX_ERR_OVERFLOW,
            NixError::Key(_) => NIX_ERR_KEY,
            NixError::Nix(_) => NIX_ERR_NIX_ERROR,
            NixError::UnknownErrorCode { code, .. } => *code,
        }
    }

    /// The message text of the error, as it is shown to users.
    pub fn to_string(&self) -> (res: String)
        ensures
            res@ == nix_error_text(*self),
    {
        proof {
            reveal_strlit("an unknown error occurred: ");
            reveal_strlit("an overflow error occurred: ");
            reveal_strlit("a key / index access error occurred: ");
            reveal_strlit("a generic Nix error occurred: ");
            reveal_strlit("unknown error code ");
            reveal_strlit(": ");
        }
        match self {
            NixError::Unknown(msg) => String::from_str("an unknown error occurred: ").concat(msg.as_str()),
            NixError::Overflow(msg) => String::from_str("an overflow error occurred: ").concat(msg.as_str()),
            NixError::Key(msg) => String::from_str("a key / index access error occurred: ").concat(
                msg.as_str(),
            ),
            NixError::Nix(msg) => String::from_str("a generic Nix error occurred: ").concat(msg.as_str()),
            NixError::UnknownErrorCode { code, msg } => {
                let mut text = String::from_str("unknown error code ");
                append_decimal(&mut text, *code);
                text.append(": ");
                text.append(msg.as_str());
                text
            },
        }
    }

    /// The message that the error carries.
    pub fn message(&self) -> (res: &String)
        ensures
            *res == nix_error_message(*self),
    {
        match self {
            NixError::Unknown(msg) => msg,
            NixError::Overflow(msg) => msg,
            NixError::Key(msg) => msg,
            NixError::Nix(msg) => msg,
            NixError::UnknownErrorCode { msg, .. } => msg,
        }
    }
}

/// Decoding a Nix API error loses nothing: its code and its message can
/// be read back from the decoded error.
pub proof fn lemma_nix_error_round_trip(code: i32, msg: String)
    ensures
        nix_error_code(nix_error_of_code(code, msg)) == code,
        nix_error_message(nix_error_of_code(code, msg)) == msg,
{
}

/// An error as returned by the Nix garbage collector.
#[derive(Debug, Clone, Copy, PartialEq, Eq, Structural)]
#[non_exhaustive]
pub enum GcError {
    NoMemory,
    Duplicate,
    Unimplemented,
    NotFound,
    /// An unknown error code that is not (yet) handled by this crate.
    UnknownErrorCode(i32),
}

/// The garbage collector error that the return value `value` stands for.
/// Negative values are no error code of the collector.
pub open spec fn gc_error_of_code(value: i32) -> GcError {
    if value < 0 {
        GcError::UnknownErrorCode(value)
    } else if value == GC_NO_MEMORY {
        GcError::NoMemory
    } else if value == GC_DUPLICATE {
        GcError::Duplicate
    } else if value == GC_NOT_FOUND {
        GcError::NotFound
    } else if value == GC_UNIMPLEMENTED {
        GcError::Unimplemented
    } else {
        GcError::UnknownErrorCode(value)
    }
}

/// The return value that a garbage collector error stands for.
pub open spec fn gc_error_code(e: GcError) -> i32 {
    match e {
        GcError::NoMemory => GC_NO_MEMORY as i32,
        GcError::Duplicate => GC_DUPLICATE as i32,
        GcError::Unimplemented => GC_UNIMPLEMENTED as i32,
        GcError::NotFound => GC_NOT_FOUND as i32,
        GcError::UnknownErrorCode(v) => v,
    }
}

/// The message text of a garbage collector error.
pub open spec fn gc_error_text(e: GcError) -> Seq<char> {
    match e {
        GcError::NoMemory => "not enough memory"@,
        GcError::Duplicate => "duplicate allocation"@,
        GcError::Unimplemented => "not implemented"@,
        GcError::NotFound => "not found"@,
        GcError::UnknownErrorCode(v) => "unknown error code "@ + decimal_text(v as int),
    }
}

impl GcError {
    /// The message text of the error, as it is shown to users.
    pub fn to_string(&self) -> (res: String)
        ensures
            res@ == gc_error_text(*self),
    {
        proof {
            reveal_strlit("not enough memory");
            reveal_strlit("duplicate allocation");
            reveal_strlit("not implemented");
            reveal_strlit("not found");
            reveal_strlit("unknown error code ");
        }
        match self {
            GcError::NoMemory => String::from_str("not enough memory"),
            GcError::Duplicate => String::from_str("duplicate allocation"),
            GcError::Unimplemented => String::from_str("not implemented"),
            GcError::NotFound => String::from_str("not found"),
            GcError::UnknownErrorCode(v) => {
                let mut text = String::from_str("unknown error code ");
                append_decimal(&mut text, *v);
                text
            },
        }
    }

    /// The return value of the garbage collector that the error stands for.
    pub fn code(&self) -> (res: i32)
        ensures
            res == gc_error_code(*self),
    {
        match self {
            GcError::NoMemory => GC_NO_MEMORY as i32,
            GcError::Duplicate => GC_DUPLICATE as i32,
            GcError::Unimplemented => GC_UNIMPLEMENTED as i32,
            GcError::NotFound => GC_NOT_FOUND as i32,
            GcError::UnknownErrorCode(v) => *v,
        }
    }
}

impl From<i32> for GcError {
    fn from(value: i32) -> (res: Self) {
        if value < 0 {
            return Self::UnknownErrorCode(value);
        }
        let errval: u32 = value as u32;
        if errval == GC_NO_MEMORY {
            Self::NoMemory
        } else if errval == GC_DUPLICATE {
            Self::Duplicate
        } else if errval == GC_NOT_FOUND {
            Self::NotFound
        } else if errval == GC_UNIMPLEMENTED {
            Self::Unimplemented
        } else {
            Self::UnknownErrorCode(value)
        }
    }
}

impl FromSpecImpl<i32> for GcError {
    open spec fn obeys_from_spec() -> bool {
        true
    }

    open spec fn from_spec(value: i32) -> GcError {
        gc_error_of_code(value)
    }
}

/// Decoding a garbage collector return value loses nothing: the value can
/// be read back from the decoded error.
pub proof fn lemma_gc_error_round_trip(value: i32, other: i32)
    ensures
        gc_error_code(gc_error_of_code(value)) == value,
        gc_error_of_code(value) == gc_error_of_code(other) ==> value == other,
{
}

} // verus!
