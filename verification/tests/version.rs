use nix_bindings::version::get_version;

#[test]
fn get_version_reads_utf8() {
    assert_eq!(get_version(b"2.24.10").unwrap(), "2.24.10");
    assert_eq!(get_version(b"").unwrap(), "");
    assert_eq!(get_version("2.30pre-ü".as_bytes()).unwrap(), "2.30pre-ü");
}

#[test]
fn get_version_refuses_invalid_utf8() {
    assert!(get_version(&[b'2', 0xff]).is_err());
    assert!(get_version(&[0xc0, 0x80]).is_err());
}
