//! Form-submission service: identifier reservation with a uniqueness
//! guarantee, generic signup recording, and an HTTP façade with CORS, all
//! persisting into a key-value store.

pub mod http;
pub mod json;
pub mod laws;
pub mod service;
pub mod store;
pub mod text;
pub mod validate;
