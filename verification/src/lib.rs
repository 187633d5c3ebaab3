//! Verified core of the Rust bindings to the Nix C API: decoding of the
//! codes that Nix hands across its C interface (verbosity levels, activity
//! and result types, error codes), the logger event model, store path
//! validation and its conversion to and from harmonia's store paths.

pub mod codes;
pub mod error;
pub mod fetchers;
pub mod logger;
pub mod store_path;
pub mod harmonia;
pub mod harmonia_store;
pub mod primop;
pub mod text;
pub mod version;
