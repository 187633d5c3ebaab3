//! The version string that the Nix library reports.

use vstd::prelude::*;
use vstd::string::StringSliceAdditionalSpecFns;
use vstd::utf8::{decode_utf8, encode_utf8_decode_utf8, valid_utf8};

verus! {

#[verifier::external_type_specification]
#[verifier::external_body]
pub struct ExUtf8Error(core::str::Utf8Error);

/// `std::str::from_utf8`. Claimed, as std documents: it succeeds exactly
/// on valid UTF-8, and the text it then gives is made of the same bytes.
/// Not claimed: what the error describes.
#[verifier::external_body]
fn str_from_utf8(bytes: &[u8]) -> (res: Result<&str, core::str::Utf8Error>)
    ensures
        res is Ok <==> valid_utf8(bytes@),
        res matches Ok(s) ==> s.spec_bytes() == bytes@,
{
    core::str::from_utf8(bytes)
}

/// Reads the version string that the Nix library reports, given as the
/// bytes of its C string: the text those bytes encode, or an error when
/// they are not valid UTF-8.
pub fn get_version(version: &[u8]) -> (res: Result<&str, core::str::Utf8Error>)
    ensures
        res is Ok <==> valid_utf8(version@),
        res matches Ok(s) ==> s@ == decode_utf8(version@),
{
    let res = str_from_utf8(version);
    proof {
        if let Ok(s) = res {
            encode_utf8_decode_utf8(s@);
        }
    }
    res
}

} // verus!
