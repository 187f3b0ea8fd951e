//! Resolution conflicts: two or more projection contracts tie in score.

use crate::projection::contract::ProjectionContractId;
use crate::value_objects::Uuid;
use vstd::prelude::*;

verus! {

/// A tie between projection contracts for a block.
#[derive(Debug, Clone, PartialEq)]
pub struct ProjectionConflict {
    /// Why it is a conflict.
    pub reason: String,
    /// The tied contracts.
    pub candidates: Vec<ProjectionContractId>,
    /// The contract chosen, if any.
    pub winner: Option<ProjectionContractId>,
    /// The block concerned.
    pub block_id: Uuid,
}

} // verus!
