//! Composable validators for loosely typed JSON values.
//!
//! A validator checks one borrowed [`Value`] and either accepts it or reports
//! an [`Error`] that points back at the offending value. The scalar validators
//! of [`validators::primitive`] pair a fixed extractor with a caller-supplied
//! predicate; their contracts are stated over [`value::content`], the
//! mathematical model of what a JSON value holds.
pub mod error;
pub mod laws;
pub mod validator;
pub mod validators;
pub mod value;

pub use error::Error;
pub use serde_json::Value;
pub use validator::Validator;
