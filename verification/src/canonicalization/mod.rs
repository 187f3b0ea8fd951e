//! The canonicalization pipeline: property patches, presets and the merge
//! policies that apply patches to blocks.

pub mod presets;
pub mod apply;
pub mod canonicalizer;
pub mod registry;
pub mod value_objects;
