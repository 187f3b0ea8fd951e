//! Quilt domain layer: blocks, pages, content segments, references,
//! property definitions, templates and projection contracts.

pub mod calendar;
pub mod canonicalization;
pub mod classes;
pub mod clock;
pub mod content;
pub mod entities;
pub mod errors;
pub mod events;
pub mod projection;
pub mod properties;
pub mod references;
pub mod str_map;
pub mod text;
pub mod value_objects;
