use vstd::prelude::*;
use crate::domain::tofu::models::StateType;
use crate::base::address::ParsedUrl;

verus! {

/// The working directory whose backend files are to be removed.
#[derive(Debug)]
pub struct CleanParams {
    pub tf_root: String,
}

/// What a working directory is initialised with against a GitLab-hosted state.
#[derive(Debug)]
pub struct InitGitlabParams {
    pub state_type: StateType,
    pub tf_root: String,
    pub url: ParsedUrl,
    pub username: String,
    pub access_token: String,
}

/// A failure to run an external command.
#[derive(Debug)]
pub enum TofuCliError {
    CommandError(std::io::Error),
}

/// Why the project configuration could not be used.
#[derive(Debug)]
pub enum ProjectConfigError {
    FSError(std::io::Error),
    SerdeTomlError(toml::de::Error),
    SerdeJsonError(serde_json::Error),
    PluginError(PluginGetStatesError),
    ParseError(url::ParseError),
    HostNotFound,
}

#[derive(Debug)]
pub enum ProjectListGroupsError {
    ProjectErrorError(ProjectConfigError),
}

/// A state's address could not be formed from the group's base address.
#[derive(Debug)]
pub enum StateAddressError {
    ParseError(url::ParseError),
}

#[derive(Debug)]
pub enum ProjectGetTargetError {
    AddressNotFound,
    InvalidDirectory,
    ParseError(StateAddressError),
    ProjectErrorError(ProjectConfigError),
}

#[derive(Debug)]
pub enum ProjectGetStateFromAddressError {
    ProjectErrorError(ProjectConfigError),
}

/// The backend settings recorded in a working directory's state file.
#[derive(Clone, Debug)]
pub struct TFStateBackendConfig {
    pub address: String,
}

impl Default for TFStateBackendConfig {
    fn default() -> (r: Self)
        ensures
            r.address@.len() == 0,
    {
        TFStateBackendConfig { address: String::new() }
    }
}

impl Default for TFStateBackend {
    fn default() -> (r: Self)
        ensures
            r.config.address@.len() == 0,
    {
        TFStateBackend { config: TFStateBackendConfig::default() }
    }
}

impl Default for TFState {
    fn default() -> (r: Self)
        ensures
            r.backend.config.address@.len() == 0,
    {
        TFState { backend: TFStateBackend::default() }
    }
}

#[derive(Clone, Debug)]
pub struct TFStateBackend {
    pub config: TFStateBackendConfig,
}

/// The part of `.terraform/terraform.tfstate` that tells which backend a
/// working directory was initialised against.
#[derive(Clone, Debug)]
pub struct TFState {
    pub backend: TFStateBackend,
}

#[derive(Debug)]
pub enum TFStateParseError {
    FSError(std::io::Error),
    SerdeError(serde_json::Error),
}

#[derive(Debug)]
pub enum PluginGetStatesError {
    WasmtimeError(wasmtime::Error),
    FSError(std::io::Error),
    PluginCallError(String),
    PluginProxyError,
    DownloadError(DownloaderPullError),
}

#[derive(Debug)]
pub enum DownloaderPullError {
    PathParseError(oci_client::ParseError),
    FSErrorError(std::io::Error),
    DBError(DatabaseError),
}

#[derive(Debug)]
pub enum DatabaseError {
    SqliteError(rusqlite::Error),
    LockError,
    TaskError(tokio::task::JoinError),
    MigrationError(rusqlite_migration::Error),
}

} // verus!
