//! The requests that the service answers.

pub mod account;
pub mod api_tokens;
pub mod apps;
pub mod docker;
pub mod groups;
pub mod sessions;
pub mod ssh_certificates;
