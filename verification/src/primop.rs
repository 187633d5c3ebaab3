//! How a failure of a primop implemented in Rust is reported back to the
//! Nix evaluator.

use vstd::prelude::*;
use vstd::string::{StringExecFns, StringSliceAdditionalSpecFns};
use crate::codes::{NIX_ERR_RECOVERABLE, NIX_ERR_UNKNOWN};

verus! {

/// The message reported in place of one that cannot be a C string.
pub open spec fn nul_message_fallback() -> Seq<char> {
    "<rust nix-expr application error message contained null byte>"@
}

/// The error code reported for a failed primop. `chain` tells, for each
/// error of the failure's chain (the error itself, then its sources), whether
/// it is a recoverable error: a failure with a recoverable error anywhere in
/// its chain is reported as recoverable, any other as unknown.
pub fn error_code(chain: &[bool]) -> (code: i32)
    ensures
        code == (if chain@.contains(true) { NIX_ERR_RECOVERABLE } else { NIX_ERR_UNKNOWN }),
{
    let len = chain.len();
    let mut i: usize = 0;
    while i < len
        invariant
            len == chain@.len(),
            i <= len,
            forall|j: int| 0 <= j < i ==> !chain@[j],
        decreases len - i,
    {
        if chain[i] {
            proof {
                assert(chain@[i as int]);
            }
            return NIX_ERR_RECOVERABLE;
        }
        i = i + 1;
    }
    NIX_ERR_UNKNOWN
}

/// The message reported for a failed primop whose error reads `msg`: the
/// message itself, unless it holds a NUL byte and so cannot be handed to C,
/// in which case a fixed message says so.
pub fn error_message(msg: &str) -> (res: String)
    ensures
        res@ == (if msg.spec_bytes().contains(0u8) { nul_message_fallback() } else { msg@ }),
{
    let bytes = msg.as_bytes();
    let len = bytes.len();
    let mut i: usize = 0;
    while i < len
        invariant
            len == bytes@.len(),
            bytes@ == msg.spec_bytes(),
            i <= len,
            forall|j: int| 0 <= j < i ==> bytes@[j] != 0u8,
        decreases len - i,
    {
        if bytes[i] == 0u8 {
            proof {
                reveal_strlit("<rust nix-expr application error message contained null byte>");
                assert(bytes@[i as int] == 0u8);
            }
            return String::from_str("<rust nix-expr application error message contained null byte>");
        }
        i = i + 1;
    }
    String::from_str(msg)
}

} // verus!
