use nix_bindings::harmonia::HarmoniaError;
use nix_bindings::store_path::{NixStorePath, StorePathNameFault};

#[test]
fn store_path_round_trip_harmonia() {
    let harmonia_path: harmonia_store_core::store_path::StorePath =
        "g1w7hy3qg1w7hy3qg1w7hy3qg1w7hy3q-foo.drv".parse().unwrap();

    let nix_path: NixStorePath = (&harmonia_path).try_into().unwrap();

    let harmonia_round_trip: harmonia_store_core::store_path::StorePath =
        (&nix_path).try_into().unwrap();

    assert_eq!(harmonia_path, harmonia_round_trip);
}

#[test]
fn store_path_harmonia_clone() {
    let harmonia_path: harmonia_store_core::store_path::StorePath =
        "g1w7hy3qg1w7hy3qg1w7hy3qg1w7hy3q-foo.drv".parse().unwrap();

    let nix_path: NixStorePath = (&harmonia_path).try_into().unwrap();
    let cloned_path = nix_path.clone();

    assert_eq!(nix_path.name(), cloned_path.name());
    assert_eq!(nix_path.hash(), cloned_path.hash());
}

#[test]
fn harmonia_path_parts_carry_over() {
    let harmonia_path: harmonia_store_core::store_path::StorePath =
        "00ljmhbmf3d12aq4l5l7yr7bxn03yqvf-perl5.38.0-libnet-3.12".parse().unwrap();
    let nix_path: NixStorePath = (&harmonia_path).try_into().unwrap();
    assert_eq!(nix_path.name(), "perl5.38.0-libnet-3.12");
    let bytes: &[u8; 20] = harmonia_path.hash().as_ref();
    assert_eq!(nix_path.hash(), *bytes);
}

#[test]
fn harmonia_dot_names_are_refused_by_nix() {
    for name in [".", "..", ".-x", "..-x"] {
        let text = format!("g1w7hy3qg1w7hy3qg1w7hy3qg1w7hy3q-{name}");
        let harmonia_path: harmonia_store_core::store_path::StorePath = text.parse().unwrap();
        let res: Result<NixStorePath, HarmoniaError> = (&harmonia_path).try_into();
        match res {
            Err(HarmoniaError::NixBindings(fault)) => {
                assert_eq!(fault, StorePathNameFault::DotComponent)
            }
            other => panic!("unexpected {other:?}"),
        }
    }
}
