//! The default projection: matches every block and adds nothing.

use crate::entities::block::Block;
use crate::projection::contract::ProjectionContractId;
use crate::projection::projection_trait::{Projection, ProjectionContext};
use crate::projection::view::ProjectionViewDelta;
use vstd::prelude::*;

verus! {

/// The fallback projection, with contract id `default`.
#[derive(Debug, Clone, Copy, PartialEq, Eq, Default)]
pub struct DefaultProjection;

impl DefaultProjection {
    /// The default projection.
    pub fn new() -> (res: DefaultProjection)
        ensures
            res == DefaultProjection,
    {
        DefaultProjection
    }

    /// Its contract id, `default`.
    pub fn default_contract_id() -> (res: ProjectionContractId)
        ensures
            res@ == "default"@,
    {
        proof {
            reveal_strlit("default");
        }
        ProjectionContractId::from_valid("default")
    }

    /// Its additions to any block: none.
    pub fn empty_delta() -> (res: ProjectionViewDelta)
        ensures
            res.decorations@.len() == 0,
            res.view_properties@.len() == 0,
            res.conflicts@.len() == 0,
    {
        ProjectionViewDelta::empty()
    }
}

impl Projection for DefaultProjection {
    fn contract_id(&self) -> (res: ProjectionContractId)
        ensures
            res@ == "default"@,
    {
        DefaultProjection::default_contract_id()
    }

    fn apply(&self, block: &Block, ctx: &ProjectionContext) -> (res: ProjectionViewDelta)
        ensures
            res.decorations@.len() == 0,
            res.view_properties@.len() == 0,
            res.conflicts@.len() == 0,
    {
        DefaultProjection::empty_delta()
    }
}

} // verus!
