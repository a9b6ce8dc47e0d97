use vstd::prelude::*;

verus! {

// The error types of std and of outside crates that the library's own error
// types carry. Each is opaque: nothing is read of it, it is only passed on.

/// `std::io::Error`.
#[verifier::external_type_specification]
#[verifier::external_body]
pub struct ExIoError(std::io::Error);

/// `toml::de::Error`, a refused TOML document.
#[verifier::external_type_specification]
#[verifier::external_body]
pub struct ExTomlError(toml::de::Error);

/// `serde_json::Error`, a refused JSON document.
#[verifier::external_type_specification]
#[verifier::external_body]
pub struct ExJsonError(serde_json::Error);

/// `wasmtime::Error`, a failure of the WebAssembly runtime.
#[verifier::external_type_specification]
#[verifier::external_body]
pub struct ExWasmtimeError(wasmtime::Error);

/// `anyhow::Error`.
#[verifier::external_type_specification]
#[verifier::external_body]
pub struct ExAnyhowError(anyhow::Error);

/// `oci_client::ParseError`, a refused OCI reference.
#[verifier::external_type_specification]
#[verifier::external_body]
pub struct ExOciParseError(oci_client::ParseError);

/// `rusqlite::Error`.
#[verifier::external_type_specification]
#[verifier::external_body]
pub struct ExSqliteError(rusqlite::Error);

/// `rusqlite_migration::Error`.
#[verifier::external_type_specification]
#[verifier::external_body]
pub struct ExMigrationError(rusqlite_migration::Error);

/// `tokio::task::JoinError`, a background task that did not complete.
#[verifier::external_type_specification]
#[verifier::external_body]
pub struct ExJoinError(tokio::task::JoinError);

} // verus!
