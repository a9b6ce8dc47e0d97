pub mod cli;
pub mod downloader;
pub mod project_config;
pub mod tfstate;
pub mod tofu_cli;
