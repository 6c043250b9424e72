//! Typed models and verified codecs for the JSON wire format of a
//! hierarchical-content API: property-schema definitions, user references,
//! and pagination cursors.
//!
//! Each codec maps between owned typed values and a [`json::Json`] value
//! tree. Encoding is infallible; decoding returns an [`error::DecodeError`]
//! that says exactly why a wire object was rejected.

pub mod error;
pub mod json;
pub mod paging;
pub mod property_schema;
pub mod query;
pub mod users;
