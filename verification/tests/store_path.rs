use nix_bindings::harmonia::HarmoniaError;
use nix_bindings::store_path::{NixStorePath, StorePathNameFault, MAX_STORE_PATH_NAME_LEN};

const HASH: [u8; 20] = [7u8; 20];

#[test]
fn from_parts_keeps_hash_and_name() {
    let path = NixStorePath::from_parts(&HASH, "hello-2.12.1").unwrap();
    assert_eq!(path.hash(), HASH);
    assert_eq!(path.name(), "hello-2.12.1");
}

#[test]
fn from_parts_accepts_every_name_character() {
    let name = "+-._?=0123456789abcdefghijklmnopqrstuvwxyzABCDEFGHIJKLMNOPQRSTUVWXYZ";
    assert_eq!(NixStorePath::from_parts(&HASH, name).unwrap().name(), name);
    assert!(NixStorePath::from_parts(&HASH, ".hidden").is_ok());
    assert!(NixStorePath::from_parts(&HASH, "...").is_ok());
    assert!(NixStorePath::from_parts(&HASH, "..a").is_ok());
}

#[test]
fn from_parts_refuses_empty_name() {
    assert_eq!(NixStorePath::from_parts(&HASH, ""), Err(StorePathNameFault::Empty));
}

#[test]
fn from_parts_length_limit() {
    let longest = "a".repeat(MAX_STORE_PATH_NAME_LEN);
    assert!(NixStorePath::from_parts(&HASH, &longest).is_ok());
    let too_long = "a".repeat(MAX_STORE_PATH_NAME_LEN + 1);
    assert_eq!(NixStorePath::from_parts(&HASH, &too_long), Err(StorePathNameFault::TooLong));
    // the limit counts bytes, not characters
    let wide = "é".repeat(106);
    assert_eq!(NixStorePath::from_parts(&HASH, &wide), Err(StorePathNameFault::TooLong));
}

#[test]
fn from_parts_refuses_dot_components() {
    for name in [".", "..", ".-foo", "..-foo", ".-", "..-"] {
        assert_eq!(
            NixStorePath::from_parts(&HASH, name),
            Err(StorePathNameFault::DotComponent),
            "{name}"
        );
    }
}

#[test]
fn from_parts_reports_first_illegal_byte() {
    assert_eq!(
        NixStorePath::from_parts(&HASH, "test|more"),
        Err(StorePathNameFault::IllegalCharacter { position: 4, byte: b'|' })
    );
    assert_eq!(
        NixStorePath::from_parts(&HASH, "a b/c"),
        Err(StorePathNameFault::IllegalCharacter { position: 1, byte: b' ' })
    );
    assert_eq!(
        NixStorePath::from_parts(&HASH, "å"),
        Err(StorePathNameFault::IllegalCharacter { position: 0, byte: 195 })
    );
}

#[test]
fn clone_keeps_hash_and_name() {
    let path = NixStorePath::from_parts(&HASH, "foo.drv").unwrap();
    let cloned = path.clone();
    assert_eq!(cloned, path);
    assert_eq!(cloned.name(), "foo.drv");
    assert_eq!(cloned.hash(), HASH);
}

#[test]
fn nix_path_always_converts_to_harmonia() {
    let path = NixStorePath::from_parts(&HASH, "x").unwrap();
    let harmonia_path: Result<harmonia_store_core::store_path::StorePath, HarmoniaError> =
        (&path).try_into();
    let harmonia_path = harmonia_path.unwrap();
    assert_eq!(harmonia_path.name().as_ref() as &str, "x");
    let bytes: &[u8; 20] = harmonia_path.hash().as_ref();
    assert_eq!(*bytes, HASH);
}
