//! Kinds of directed relations between property values (workflows,
//! hierarchies, implications).

use vstd::prelude::*;

verus! {

/// The kind of a relation between property values.
#[derive(Debug, Clone, PartialEq, Eq, Hash)]
pub enum RelationType {
    /// The source comes before the target (`todo` precedes `doing`).
    Precedes,
    /// The source is broader than the target.
    Broadens,
    /// The source implies the target.
    Implies,
    /// The source requires the target.
    Requires,
    /// A user-defined kind.
    Custom(String),
}

/// The name of a relation kind; a custom kind is named by its own name.
pub open spec fn relation_type_name(r: RelationType) -> Seq<char> {
    match r {
        RelationType::Precedes => "precedes"@,
        RelationType::Broadens => "broadens"@,
        RelationType::Implies => "implies"@,
        RelationType::Requires => "requires"@,
        RelationType::Custom(name) => name@,
    }
}

impl RelationType {
    /// The kind's name.
    pub fn as_str(&self) -> (res: &str)
        ensures
            res@ == relation_type_name(*self),
    {
        match self {
            RelationType::Precedes => "precedes",
            RelationType::Broadens => "broadens",
            RelationType::Implies => "implies",
            RelationType::Requires => "requires",
            RelationType::Custom(name) => name.as_str(),
        }
    }
}

} // verus!
