//! Store paths: the hash part and the name of an entry of the Nix store,
//! with the name held to the rules by which Nix accepts store path names.

use vstd::prelude::*;
use vstd::string::StringSliceAdditionalSpecFns;
use vstd::utf8::encode_utf8;

verus! {

/// Number of bytes in the hash part of a store path.
pub const STORE_PATH_HASH_SIZE: usize = 20;

/// Longest store path name, in bytes, that Nix accepts.
pub const MAX_STORE_PATH_NAME_LEN: usize = 211;

/// Whether `b` may occur in a store path name: an ASCII letter or digit,
/// or one of `+ - . _ ? =`.
pub open spec fn is_name_byte(b: u8) -> bool {
    ||| 0x30 <= b <= 0x39
    ||| 0x61 <= b <= 0x7a
    ||| 0x41 <= b <= 0x5a
    ||| b == 0x2b || b == 0x2d || b == 0x2e || b == 0x5f || b == 0x3f || b == 0x3d
}

/// Why Nix refuses a store path name.
#[derive(Debug, Clone, Copy, PartialEq, Eq, Structural)]
pub enum StorePathNameFault {
    /// The name is empty.
    Empty,
    /// The name is longer than [`MAX_STORE_PATH_NAME_LEN`] bytes.
    TooLong,
    /// The name is `.` or `..`, or its first dash-separated component is.
    DotComponent,
    /// The byte at `position` may not occur in a name; no byte before it
    /// is refused.
    IllegalCharacter { position: usize, byte: u8 },
}

/// The name is `.` or `..`, or begins with `.-` or `..-`.
pub open spec fn is_dot_component(name: Seq<u8>) -> bool {
    &&& name.len() >= 1
    &&& name[0] == 0x2e
    &&& {
        ||| name.len() == 1
        ||| name[1] == 0x2d
        ||| (name[1] == 0x2e && (name.len() == 2 || name[2] == 0x2d))
    }
}

/// Position `i` holds the first byte of `name` that may not occur in a
/// store path name.
pub open spec fn first_illegal_at(name: Seq<u8>, i: int) -> bool {
    &&& 0 <= i < name.len()
    &&& !is_name_byte(name[i])
    &&& forall|j: int| 0 <= j < i ==> is_name_byte(#[trigger] name[j])
}

/// Every byte of `name` may occur in a store path name.
pub open spec fn all_name_bytes(name: Seq<u8>) -> bool {
    forall|i: int| 0 <= i < name.len() ==> is_name_byte(#[trigger] name[i])
}

/// Nix's verdict on a store path name given by its bytes: `None` when the
/// name is accepted, else the first rule that it breaks, checked in the
/// order emptiness, length, dot components, characters.
pub open spec fn store_path_name_fault(name: Seq<u8>) -> Option<StorePathNameFault> {
    if name.len() == 0 {
        Some(StorePathNameFault::Empty)
    } else if name.len() > MAX_STORE_PATH_NAME_LEN {
        Some(StorePathNameFault::TooLong)
    } else if is_dot_component(name) {
        Some(StorePathNameFault::DotComponent)
    } else if !all_name_bytes(name) {
        let i = choose|i: int| first_illegal_at(name, i);
        Some(StorePathNameFault::IllegalCharacter { position: i as usize, byte: name[i] })
    } else {
        None
    }
}

/// Nix accepts `name` as a store path name.
pub open spec fn valid_store_path_name(name: Seq<u8>) -> bool {
    store_path_name_fault(name) is None
}

/// A path in the Nix store, given by its hash part and its name.
#[derive(Debug, PartialEq, Eq)]
pub struct NixStorePath {
    hash: [u8; 20],
    name: String,
}

impl View for NixStorePath {
    /// The hash bytes and the name.
    type V = (Seq<u8>, Seq<char>);

    closed spec fn view(&self) -> (Seq<u8>, Seq<char>) {
        (self.hash@, self.name@)
    }
}

impl NixStorePath {
    /// The name of a store path is one that Nix accepts.
    #[verifier::type_invariant]
    closed spec fn wf(self) -> bool {
        valid_store_path_name(encode_utf8(self.name@))
    }

    /// Builds a store path from its hash part and its name, checking the
    /// name as Nix does.
    pub fn from_parts(hash: &[u8; 20], name: &str) -> (res: Result<NixStorePath, StorePathNameFault>)
        ensures
            res is Ok <==> valid_store_path_name(name.spec_bytes()),
            res matches Ok(p) ==> p@ == (hash@, name@),
            res matches Err(f) ==> store_path_name_fault(name.spec_bytes()) == Some(f),
    {
        let bytes = name.as_bytes();
        let len = bytes.len();
        if len == 0 {
            return Err(StorePathNameFault::Empty);
        }
        if len > MAX_STORE_PATH_NAME_LEN {
            return Err(StorePathNameFault::TooLong);
        }
        if bytes[0] == 0x2e {
            if len == 1 || bytes[1] == 0x2d {
                return Err(StorePathNameFault::DotComponent);
            }
            if bytes[1] == 0x2e && (len == 2 || bytes[2] == 0x2d) {
                return Err(StorePathNameFault::DotComponent);
            }
        }
        let mut i: usize = 0;
        while i < len
            invariant
                len == bytes@.len(),
                bytes@ == name.spec_bytes(),
                0 < len <= MAX_STORE_PATH_NAME_LEN,
                !is_dot_component(bytes@),
                i <= len,
                forall|j: int| 0 <= j < i ==> is_name_byte(#[trigger] bytes@[j]),
            decreases len - i,
        {
            let b = bytes[i];
            if !(0x30 <= b && b <= 0x39 || 0x61 <= b && b <= 0x7a || 0x41 <= b && b <= 0x5a
                || b == 0x2b || b == 0x2d || b == 0x2e || b == 0x5f || b == 0x3f || b == 0x3d) {
                proof {
                    assert(first_illegal_at(bytes@, i as int));
                    let k = choose|k: int| first_illegal_at(bytes@, k);
                    if k < i {
                        assert(is_name_byte(bytes@[k]));
                    } else if k > i {
                        assert(is_name_byte(bytes@[i as int]));
                    }
                    assert(k == i);
                }
                return Err(StorePathNameFault::IllegalCharacter { position: i, byte: b });
            }
            i = i + 1;
        }
        let owned = name.to_owned();
        Ok(NixStorePath { hash: *hash, name: owned })
    }

    /// The hash part of the store path.
    pub fn hash(&self) -> (res: [u8; 20])
        ensures
            res@ == self@.0,
    {
        self.hash
    }

    /// The name of the store path, which Nix accepts.
    pub fn name(&self) -> (res: String)
        ensures
            res@ == self@.1,
            valid_store_path_name(encode_utf8(res@)),
    {
        proof {
            use_type_invariant(self);
        }
        self.name.clone()
    }
}

impl Clone for NixStorePath {
    fn clone(&self) -> (res: Self)
        ensures
            res@ == self@,
    {
        proof {
            use_type_invariant(self);
        }
        NixStorePath { hash: self.hash, name: self.name.clone() }
    }
}

} // verus!
