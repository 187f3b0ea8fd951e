//! `EdgeType`: the kind of a typed edge of the graph.

use vstd::prelude::*;

verus! {

/// The kind of a typed edge of the graph.
#[derive(Debug, Clone, PartialEq, Eq, Hash)]
pub enum EdgeType {
    /// `[[Page Name]]`.
    PageRef,
    /// `((block-uuid))`.
    BlockRef,
    /// `#tag`.
    Tag,
    /// A computed back-link.
    Backlink,
    /// A hierarchical namespace reference.
    Namespace,
    /// A parent-child relationship.
    Parent,
    /// A user-defined kind.
    Custom(String),
}

/// A user-defined edge kind, kept apart from `EdgeType` so that the
/// built-in kinds stay plain values.
#[derive(Debug, Clone, PartialEq, Eq, Hash)]
pub struct CustomEdgeType(pub String);

/// The kind's name as `Display` shows it.
pub open spec fn edge_type_text(e: EdgeType) -> Seq<char> {
    match e {
        EdgeType::PageRef => "page_ref"@,
        EdgeType::BlockRef => "block_ref"@,
        EdgeType::Tag => "tag"@,
        EdgeType::Backlink => "backlink"@,
        EdgeType::Namespace => "namespace"@,
        EdgeType::Parent => "parent"@,
        EdgeType::Custom(s) => "custom:"@ + s@,
    }
}

impl EdgeType {
    /// Whether this is one of the built-in kinds (not `Custom`).
    pub fn is_unit(&self) -> (res: bool)
        ensures
            res == !(*self is Custom),
    {
        !matches!(self, EdgeType::Custom(_))
    }

    /// The kind's name: `page_ref`, `block_ref`, `tag`, `backlink`,
    /// `namespace`, `parent`, or `custom:` followed by the custom name.
    pub fn to_display_string(&self) -> (res: String)
        ensures
            res@ == edge_type_text(*self),
    {
        match self {
            EdgeType::PageRef => "page_ref".to_owned(),
            EdgeType::BlockRef => "block_ref".to_owned(),
            EdgeType::Tag => "tag".to_owned(),
            EdgeType::Backlink => "backlink".to_owned(),
            EdgeType::Namespace => "namespace".to_owned(),
            EdgeType::Parent => "parent".to_owned(),
            EdgeType::Custom(s) => {
                let mut r = "custom:".to_owned();
                r.append(s.as_str());
                r
            },
        }
    }
}

} // verus!
