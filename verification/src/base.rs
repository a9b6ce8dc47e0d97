pub mod address;
pub mod component;
pub mod config;
pub mod foreign_errors;
pub mod digest;
pub mod path;
