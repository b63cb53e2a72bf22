//! A typed client for the bundle endpoints of the Valorant game-data API.
//!
//! The library holds the logic of each call: the request URL it builds, and
//! how a response body, once read as JSON, is unwrapped from its
//! `{"status", "data"}` envelope and checked against the typed record.
//! Sending the request and reading its body are left to the caller.
pub mod bundle;
pub mod endpoints;
pub mod envelope;
pub mod json;
pub mod language;
pub mod resource_id;

pub use bundle::{Bundle, bundle_from_response, bundles_from_response, decode_bundle, decode_bundles};
pub use endpoints::{bundle_url, bundles_url};
pub use envelope::{ClientError, open_envelope};
pub use json::Json;
pub use language::Language;
pub use resource_id::ResourceId;
