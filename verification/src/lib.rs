//! Classification of error sum-types into wire-level responses.
//!
//! An error enumeration carries per-variant annotations naming a status
//! code, a machine-readable reason, a type tag and a details field.  This
//! crate parses that annotation grammar, folds the parsed entries into a
//! per-variant metadata table, and resolves every error value through the
//! fallback chain: explicit metadata, then a forwarded inner error, then
//! the default supplied by the active transform policy.

pub mod text;
pub mod token;
pub mod grammar;
pub mod table;
pub mod generate;
pub mod json;
pub mod dispatch;
pub mod registry;
