//! `Ref`: one outgoing reference, its target and its type.

use crate::references::ref_type::RefType;
use crate::value_objects::Uuid;
use vstd::prelude::*;

verus! {

/// A reference to `target`, of type `ref_type`.
#[derive(Debug, Clone, Copy, PartialEq, Eq, Hash, Structural)]
pub struct Ref {
    /// What is referred to.
    pub target: Uuid,
    /// How it is referred to.
    pub ref_type: RefType,
}

impl Ref {
    /// A reference to `target` of type `ref_type`.
    pub fn new(target: Uuid, ref_type: RefType) -> (res: Ref)
        ensures
            res.target == target,
            res.ref_type == ref_type,
    {
        Ref { target, ref_type }
    }
}

} // verus!
