//! `RefType`: how one entity refers to another.

use crate::text::str_eq;
use vstd::prelude::*;

verus! {

/// How one entity refers to another.
#[derive(Debug, Clone, Copy, PartialEq, Eq, Hash, Structural)]
pub enum RefType {
    /// `[[Page]]`.
    PageRef,
    /// `((block))`.
    BlockRef,
    /// `#tag`.
    Tag,
    /// An alias of a page.
    Alias,
}

/// The snake-case name of a reference type.
pub open spec fn ref_type_name(k: RefType) -> Seq<char> {
    match k {
        RefType::PageRef => "page_ref"@,
        RefType::BlockRef => "block_ref"@,
        RefType::Tag => "tag"@,
        RefType::Alias => "alias"@,
    }
}

/// The reference type with snake-case name `s`, if any.
pub open spec fn ref_type_parse(s: Seq<char>) -> Option<RefType> {
    if s == "page_ref"@ {
        Some(RefType::PageRef)
    } else if s == "block_ref"@ {
        Some(RefType::BlockRef)
    } else if s == "tag"@ {
        Some(RefType::Tag)
    } else if s == "alias"@ {
        Some(RefType::Alias)
    } else {
        None
    }
}

impl RefType {
    /// The snake-case name (`page_ref`, `block_ref`, `tag`, `alias`).
    pub fn as_str(&self) -> (res: &'static str)
        ensures
            res@ == ref_type_name(*self),
    {
        match self {
            RefType::PageRef => "page_ref",
            RefType::BlockRef => "block_ref",
            RefType::Tag => "tag",
            RefType::Alias => "alias",
        }
    }

    /// The reference type with snake-case name `s`; `None` for any other text.
    pub fn from_str(s: &str) -> (res: Option<RefType>)
        ensures
            res == ref_type_parse(s@),
    {
        if str_eq(s, "page_ref") {
            Some(RefType::PageRef)
        } else if str_eq(s, "block_ref") {
            Some(RefType::BlockRef)
        } else if str_eq(s, "tag") {
            Some(RefType::Tag)
        } else if str_eq(s, "alias") {
            Some(RefType::Alias)
        } else {
            None
        }
    }

    /// The name, as `Display` shows it.
    pub fn to_display_string(&self) -> (res: String)
        ensures
            res@ == ref_type_name(*self),
    {
        self.as_str().to_owned()
    }
}

/// Parsing a reference type's name gives it back, and a name that parses
/// is the name of what it parses to.
pub proof fn lemma_ref_type_round_trip(k: RefType, s: Seq<char>)
    ensures
        ref_type_parse(ref_type_name(k)) == Some(k),
        ref_type_parse(s) matches Some(j) ==> ref_type_name(j) == s,
{
    reveal_strlit("page_ref");
    reveal_strlit("block_ref");
    reveal_strlit("tag");
    reveal_strlit("alias");
    assert("block_ref"@.len() != "page_ref"@.len());
    assert("tag"@.len() != "page_ref"@.len() && "tag"@.len() != "block_ref"@.len());
    assert("alias"@.len() != "page_ref"@.len() && "alias"@.len() != "block_ref"@.len()
        && "alias"@.len() != "tag"@.len());
}

} // verus!
