//! References between blocks and pages: their types, typed edges, and an
//! in-memory bidirectional index.

pub mod edge_type;
pub mod ref_;
pub mod ref_index;
pub mod ref_type;
