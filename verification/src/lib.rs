//! A search tool for self-hosted SearXNG instances: what it asks, where it sends its requests to,
//! how a search goes, and how the results are shown.
//!
//! Input and output are left to the caller: [`exchange`] tells what is to be done next, and takes
//! what has happened.

pub mod args;
pub mod base_url;
pub mod categories;
pub mod error;
pub mod exchange;
pub mod fingerprint;
pub mod render;
pub mod request;
pub mod response;
pub mod schema;
pub mod status;
pub mod text;
pub mod tool;
