//! Typed properties: their type system, definitions, built-in
//! definitions, entries and merging, validation, relations and schemas.

pub mod types;
pub mod definition;
pub mod builtin;
pub mod entry;
pub mod merge;
pub mod validator;
pub mod analytics;
pub mod relation;
pub mod resolver;
pub mod schema;
