//! A fixed pizza catalog, lookup by name, and the JSON responses that report
//! the outcome of a lookup.

pub mod catalog;
pub mod json;
pub mod response;
