//! Conversion between this crate's [`NixStorePath`] and the store paths of
//! the `harmonia-store-core` crate.

use vstd::prelude::*;
use vstd::std_specs::convert::TryFromSpecImpl;
use vstd::utf8::encode_utf8;
use crate::harmonia_store::{
    harmonia_accepts_name, harmonia_path_parts, harmonia_store_path, harmonia_store_path_from_parts,
};
use crate::store_path::{
    is_dot_component, valid_store_path_name, NixStorePath, StorePathNameFault,
};

verus! {

/// Every name that Nix accepts, harmonia accepts too.
pub proof fn lemma_nix_name_is_harmonia_name(name: Seq<u8>)
    requires
        valid_store_path_name(name),
    ensures
        harmonia_accepts_name(name),
{
}

/// harmonia and Nix part only on dot components: a name that harmonia
/// accepts is one that Nix accepts unless it is `.` or `..` or its first
/// dash-separated component is.
pub proof fn lemma_harmonia_name_is_nix_name(name: Seq<u8>)
    requires
        harmonia_accepts_name(name),
    ensures
        valid_store_path_name(name) <==> !is_dot_component(name),
{
}

/// Why a store path could not be carried over between this crate and
/// harmonia.
#[derive(Debug)]
pub enum HarmoniaError {
    /// Nix refuses the name of harmonia's store path.
    NixBindings(StorePathNameFault),
    /// harmonia refuses the name of this crate's store path.
    StorePathName(harmonia_store_core::store_path::StorePathNameError),
}

/// The harmonia store path `path` is made of a 20-byte hash and a name that
/// both harmonia and Nix accept.
pub open spec fn harmonia_path_nix_name(path: harmonia_store_core::store_path::StorePath) -> bool {
    exists|h: Seq<u8>, n: Seq<char>|
        h.len() == 20 && harmonia_accepts_name(encode_utf8(n)) && valid_store_path_name(encode_utf8(n))
            && #[trigger] harmonia_store_path(h, n) == path
}

/// A store path carried to harmonia comes back unchanged: the harmonia
/// path made of a 20-byte hash and a name that Nix accepts is one that
/// carrying back accepts, and (by the `ensures` of the two conversions)
/// the store path it gives back has that hash and that name.
pub proof fn lemma_harmonia_round_trip(h: Seq<u8>, n: Seq<char>)
    requires
        h.len() == 20,
        valid_store_path_name(encode_utf8(n)),
    ensures
        harmonia_path_nix_name(harmonia_store_path(h, n)),
{
    assert(harmonia_accepts_name(encode_utf8(n)));
}

impl<'a> TryFrom<&'a harmonia_store_core::store_path::StorePath> for NixStorePath {
    type Error = HarmoniaError;

    /// Carries harmonia's store path over, checking its name as Nix does.
    /// harmonia's names pass every rule of Nix but the one on dot
    /// components, so that is the only refusal there can be.
    fn try_from(harmonia_path: &'a harmonia_store_core::store_path::StorePath) -> (res: Result<NixStorePath, HarmoniaError>)
        ensures
            res is Ok <==> harmonia_path_nix_name(*harmonia_path),
            res matches Ok(p) ==> harmonia_store_path(p@.0, p@.1) == *harmonia_path,
            res matches Ok(p) ==> forall|h: Seq<u8>, n: Seq<char>|
                h.len() == 20 && harmonia_accepts_name(encode_utf8(n))
                    && #[trigger] harmonia_store_path(h, n) == *harmonia_path ==> h == p@.0 && n == p@.1,
            res matches Err(e) ==> e == HarmoniaError::NixBindings(StorePathNameFault::DotComponent),
    {
        let (hash, name) = harmonia_path_parts(harmonia_path);
        match NixStorePath::from_parts(&hash, name.as_str()) {
            Ok(path) => {
                proof {
                    assert(harmonia_store_path(hash@, name@) == *harmonia_path);
                }
                Ok(path)
            },
            Err(fault) => Err(HarmoniaError::NixBindings(fault)),
        }
    }
}

impl<'a> TryFrom<&'a NixStorePath> for harmonia_store_core::store_path::StorePath {
    type Error = HarmoniaError;

    /// Carries the store path over to harmonia, which checks the name
    /// again. Every name that Nix accepts harmonia accepts too, so this
    /// never fails, and the result is the harmonia path made of the same
    /// hash and name.
    fn try_from(nix_path: &'a NixStorePath) -> (res: Result<harmonia_store_core::store_path::StorePath, HarmoniaError>)
        ensures
            res == Ok::<harmonia_store_core::store_path::StorePath, HarmoniaError>(
                harmonia_store_path(nix_path@.0, nix_path@.1),
            ),
    {
        let hash = nix_path.hash();
        let name = nix_path.name();
        match harmonia_store_path_from_parts(hash, name.as_str()) {
            Ok(path) => Ok(path),
            Err(e) => Err(HarmoniaError::StorePathName(e)),
        }
    }
}

/// Carrying a harmonia path over gives a store path made of its hash and
/// its name when Nix accepts the name, and the refusal of a dot component
/// otherwise. A store path is fixed here only by its hash and name, not as
/// a value, so `try_from` is not held to this function; its own `ensures`
/// state the same and more.
impl<'a> TryFromSpecImpl<&'a harmonia_store_core::store_path::StorePath> for NixStorePath {
    open spec fn obeys_try_from_spec() -> bool {
        false
    }

    open spec fn try_from_spec(v: &'a harmonia_store_core::store_path::StorePath) -> Result<NixStorePath, HarmoniaError> {
        if harmonia_path_nix_name(*v) {
            Ok(choose|p: NixStorePath| harmonia_store_path(p@.0, p@.1) == *v)
        } else {
            Err(HarmoniaError::NixBindings(StorePathNameFault::DotComponent))
        }
    }
}

/// Carrying a store path to harmonia always gives the harmonia path made
/// of its hash and its name.
impl<'a> TryFromSpecImpl<&'a NixStorePath> for harmonia_store_core::store_path::StorePath {
    open spec fn obeys_try_from_spec() -> bool {
        true
    }

    open spec fn try_from_spec(v: &'a NixStorePath) -> Result<harmonia_store_core::store_path::StorePath, HarmoniaError> {
        Ok(harmonia_store_path(v@.0, v@.1))
    }
}

} // verus!
