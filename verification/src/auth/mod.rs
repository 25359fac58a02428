//! Logging in, and keeping the credential that a login yields.

pub mod credentials;
pub mod device_flow;
pub mod record;
pub mod vault;

pub use credentials::{Credentials, CredentialsStore};
pub use device_flow::DeviceFlowAuth;
