//! Project-state management for OpenTofu/Terraform working directories:
//! which state of which group a directory should be initialised against,
//! how the backend is configured, and how plugins and artifacts are located.

pub mod base;
pub mod domain;
pub mod inbound;
pub mod outbound;
