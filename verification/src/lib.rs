//! Consistency checks for localization-style key/value files.
//!
//! A set of JSON or `.arb` files is accepted when every path carries a
//! recognized extension, every path names an existing regular file, every
//! file decodes to a non-empty flat string-to-string mapping, and all the
//! mappings share one key set. Each check is a verified function with a
//! contract that states exactly when it succeeds and which error it
//! returns otherwise.

pub mod errors;
pub mod existence;
pub mod extension;
pub mod flat_map;
pub mod json;
pub mod pipeline;
pub mod validate;
