//! The projection interface and its resolution context.

use crate::entities::block::Block;
use crate::projection::contract::ProjectionContractId;
use crate::projection::view::ProjectionViewDelta;
use vstd::prelude::*;

verus! {

/// Runtime information available while resolving projections.
#[derive(Debug, Clone, PartialEq)]
pub struct ProjectionContext {
    /// The active view, such as `page`.
    pub active_view: String,
    /// The current time, in milliseconds since the Unix epoch.
    pub now: i64,
}

impl ProjectionContext {
    /// A context for view `active_view` at time `now`.
    pub fn new(active_view: &str, now: i64) -> (res: ProjectionContext)
        ensures
            res.active_view@ == active_view@,
            res.now == now,
    {
        ProjectionContext { active_view: active_view.to_owned(), now }
    }

    /// A context for the page view at time `now`.
    pub fn page(now: i64) -> (res: ProjectionContext)
        ensures
            res.active_view@ == "page"@,
            res.now == now,
    {
        Self::new("page", now)
    }
}

/// A projection: the additions one contract makes to a block's view.
pub trait Projection {
    /// The id of the contract this projection implements.
    fn contract_id(&self) -> ProjectionContractId;

    /// The additions for `block` in context `ctx`.
    fn apply(&self, block: &Block, ctx: &ProjectionContext) -> ProjectionViewDelta;
}

} // verus!
