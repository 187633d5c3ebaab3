# nix_bindings

The logic of the Rust bindings to the Nix C API, verified with Verus.

- `src/codes.rs`: the numeric values of the C API's enumerations and error codes.
- `src/logger.rs`: verbosity levels, activity and result types decoded from their
  codes, the `Logger` trait, and the decoding of logger callbacks into events.
- `src/error.rs`: Nix API errors and garbage collector errors decoded from their codes.
- `src/store_path.rs`: store paths and the rules by which Nix accepts their names.
- `src/harmonia.rs`, `src/harmonia_store.rs`: conversion to and from the store paths of
  `harmonia-store-core`.
- `src/fetchers.rs`, `src/primop.rs`: how initialisation failures and primop failures are
  reported.
- `src/version.rs`: the UTF-8 check of the version string; `src/text.rs`: decimal notation
  for error texts.
- `app/`: error types with their messages (`thiserror`), the C callbacks of the logger,
  and the fetchers' initialisation outcome as an `anyhow` result.

Not in this crate: everything that only calls the Nix C libraries through the
`nix-bindings-*-sys` crates, which are not part of it — `set_logger` and the logger
vtable, the util library's `init`, the C call behind `get_version`, `PrimOp`, `PrimOpMeta`,
`DerivedPath`, `FetchersSettings`, and the once-per-process call of the fetchers'
initialisation. `app/` holds the logger's C callbacks, which such a registration would
use.
