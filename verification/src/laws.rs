//! What holds of the service as a whole, whatever it is asked and whatever the
//! services behind it tell.

pub mod accounts;
pub mod api_tokens;
pub mod apps;
pub mod docker;
pub mod failures;
pub mod groups;
pub mod requests;
pub mod sessions;
pub mod ssh_certificates;
