pub mod models;
pub mod ports;
pub mod service;

pub use models::{Group, GroupState, GroupStatus, StateTarget, StateType};
pub use service::{
    InitParams, Service, ServiceCleanError, ServiceInitError, ServiceListError, ServiceStatusError,
};
