//! Projections: declarative matching of blocks against contracts, and the
//! views composed from them.

pub mod conflict;
pub mod contract;
pub mod default;
pub mod predicate;
pub mod projection_trait;
pub mod view;
