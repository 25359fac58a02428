//! What the tool asks of the service.

pub mod api;

pub use api::ApiClient;
