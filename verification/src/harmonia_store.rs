//! The items of `harmonia-store-core` that this crate calls, with what
//! their source shows of them.

use vstd::prelude::*;
use vstd::utf8::encode_utf8;
use crate::store_path::{all_name_bytes, MAX_STORE_PATH_NAME_LEN};

verus! {

#[verifier::external_type_specification]
#[verifier::external_body]
pub struct ExHarmoniaStorePath(harmonia_store_core::store_path::StorePath);

#[verifier::external_type_specification]
#[verifier::external_body]
pub struct ExHarmoniaStorePathNameError(harmonia_store_core::store_path::StorePathNameError);

/// harmonia accepts a store path name given by its bytes: it is non-empty,
/// at most [`MAX_STORE_PATH_NAME_LEN`] bytes long, and every byte may occur
/// in a name.
pub open spec fn harmonia_accepts_name(name: Seq<u8>) -> bool {
    &&& 1 <= name.len() <= MAX_STORE_PATH_NAME_LEN
    &&& all_name_bytes(name)
}

/// The harmonia store path made of the hash bytes `hash` and the name
/// `name`.
pub uninterp spec fn harmonia_store_path(hash: Seq<u8>, name: Seq<char>) -> harmonia_store_core::store_path::StorePath;

/// The hash and the name of a harmonia store path, read as plain values
/// through its accessors `StorePath::hash` and `StorePath::name`. Claimed,
/// as harmonia's source shows (a `StorePath` is a plain pair of a hash and
/// a name, and a `StorePathName` is only ever built from a string that
/// passed harmonia's name check): the path is the one made of the parts
/// read, harmonia accepts the name, and no other 20-byte hash and accepted
/// name make the same path.
#[verifier::external_body]
pub(crate) fn harmonia_path_parts(path: &harmonia_store_core::store_path::StorePath) -> (res: ([u8; 20], String))
    ensures
        harmonia_store_path(res.0@, res.1@) == *path,
        harmonia_accepts_name(encode_utf8(res.1@)),
        forall|h: Seq<u8>, n: Seq<char>|
            h.len() == 20 && harmonia_accepts_name(encode_utf8(n)) && #[trigger] harmonia_store_path(h, n) == *path
                ==> h == res.0@ && n == res.1@,
{
    let hash: &[u8; 20] = path.hash().as_ref();
    (*hash, path.name().as_ref().to_string())
}

/// harmonia's `StorePathName::from_str` on `name`, with `hash` wrapped by
/// `StorePathHash::new` and the two paired by `From<(StorePathHash,
/// StorePathName)>` into a `StorePath`. Claimed, as harmonia's source
/// shows: the name is refused exactly when harmonia does not accept it,
/// and otherwise the result is the path made of `hash` and `name`. Not
/// claimed: which error a refused name gives.
#[verifier::external_body]
pub(crate) fn harmonia_store_path_from_parts(hash: [u8; 20], name: &str) -> (res: Result<
    harmonia_store_core::store_path::StorePath,
    harmonia_store_core::store_path::StorePathNameError,
>)
    ensures
        res is Ok <==> harmonia_accepts_name(encode_utf8(name@)),
        res matches Ok(p) ==> p == harmonia_store_path(hash@, name@),
{
    let name: harmonia_store_core::store_path::StorePathName = name.parse()?;
    let hash = harmonia_store_core::store_path::StorePathHash::new(hash);
    Ok(harmonia_store_core::store_path::StorePath::from((hash, name)))
}

} // verus!
