//! The data exchanged with the service.

pub mod common;
pub mod dashboards;
pub mod datasources;
pub mod folders;
pub mod health;
pub mod openapi;
pub mod org;
pub mod search;
pub mod service_accounts;
pub mod teams;
pub mod user;
