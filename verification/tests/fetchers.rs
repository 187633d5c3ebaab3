#[test]
fn init_passes_success_through() {
    nix_bindings::fetchers::init(&Ok(())).unwrap();
}

#[test]
fn init_reports_a_stored_failure_with_prefix() {
    assert_eq!(
        nix_bindings::fetchers::init(&Err("libfetchers_init failed".to_string())),
        Err("nix_bindings_fetchers::init error: libfetchers_init failed".to_string())
    );
    assert_eq!(
        nix_bindings::fetchers::init(&Err(String::new())),
        Err("nix_bindings_fetchers::init error: ".to_string())
    );
}
