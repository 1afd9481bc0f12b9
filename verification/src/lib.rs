//! The core of a read-only HTTP catalogue of social-graph lookups over an
//! upstream service that answers in loosely structured text.
//!
//! The crate validates request parameters, describes each lookup as a typed
//! resource query, and classifies the upstream answer into a JSON payload or
//! one of three error kinds.
pub mod classify;
pub mod error;
pub mod json;
pub mod params;
pub mod reader;
pub mod resource;
pub mod routes;
pub mod schema;
pub mod service;
pub mod text;
