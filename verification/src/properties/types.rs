//! The property type system: value types, cardinality, visibility,
//! mutability, lifecycle status, provenance and merge policies.

use crate::content::mark::{clone_opt, opt_view};
use crate::text::str_eq;
use crate::value_objects::Uuid;
use vstd::prelude::*;

verus! {

/// The value type of a property.
#[derive(Debug, Clone, Copy, PartialEq, Eq, Hash, Structural)]
pub enum PropertyType {
    /// Free text.
    Text,
    /// A number.
    Number,
    /// A calendar date.
    Date,
    /// A date and time.
    DateTime,
    /// A URL.
    Url,
    /// A checkbox.
    Checkbox,
    /// A reference to a page or block.
    Node,
}

/// The canonical name of a [`PropertyType`].
pub open spec fn property_type_name(k: PropertyType) -> Seq<char> {
    match k {
        PropertyType::Text => "Text"@,
        PropertyType::Number => "Number"@,
        PropertyType::Date => "Date"@,
        PropertyType::DateTime => "DateTime"@,
        PropertyType::Url => "Url"@,
        PropertyType::Checkbox => "Checkbox"@,
        PropertyType::Node => "Node"@,
    }
}

/// The [`PropertyType`] with canonical name `s`, if any.
pub open spec fn property_type_parse(s: Seq<char>) -> Option<PropertyType> {
    if s == "Text"@ {
        Some(PropertyType::Text)
    } else if s == "Number"@ {
        Some(PropertyType::Number)
    } else if s == "Date"@ {
        Some(PropertyType::Date)
    } else if s == "DateTime"@ {
        Some(PropertyType::DateTime)
    } else if s == "Url"@ {
        Some(PropertyType::Url)
    } else if s == "Checkbox"@ {
        Some(PropertyType::Checkbox)
    } else if s == "Node"@ {
        Some(PropertyType::Node)
    } else {
        None
    }
}

impl PropertyType {
    /// The canonical name: `Text`, `Number`, `Date`, `DateTime`, `Url`, `Checkbox`, `Node`.
    pub fn as_str(&self) -> (res: &'static str)
        ensures
            res@ == property_type_name(*self),
    {
        match self {
            PropertyType::Text => "Text",
            PropertyType::Number => "Number",
            PropertyType::Date => "Date",
            PropertyType::DateTime => "DateTime",
            PropertyType::Url => "Url",
            PropertyType::Checkbox => "Checkbox",
            PropertyType::Node => "Node",
        }
    }

    /// The value with canonical name `s`; `None` for any other text.
    pub fn from_str(s: &str) -> (res: Option<PropertyType>)
        ensures
            res == property_type_parse(s@),
    {
        if str_eq(s, "Text") {
            Some(PropertyType::Text)
        } else if str_eq(s, "Number") {
            Some(PropertyType::Number)
        } else if str_eq(s, "Date") {
            Some(PropertyType::Date)
        } else if str_eq(s, "DateTime") {
            Some(PropertyType::DateTime)
        } else if str_eq(s, "Url") {
            Some(PropertyType::Url)
        } else if str_eq(s, "Checkbox") {
            Some(PropertyType::Checkbox)
        } else if str_eq(s, "Node") {
            Some(PropertyType::Node)
        } else {
            None
        }
    }

    /// The canonical name, as `Display` shows it.
    pub fn to_display_string(&self) -> (res: String)
        ensures
            res@ == property_type_name(*self),
    {
        self.as_str().to_owned()
    }
}

/// Parsing a [`PropertyType`]'s name gives it back, and a name that parses is the
/// name of what it parses to.
pub proof fn lemma_property_type_round_trip(k: PropertyType, s: Seq<char>)
    ensures
        property_type_parse(property_type_name(k)) == Some(k),
        property_type_parse(s) matches Some(j) ==> property_type_name(j) == s,
{
    reveal_strlit("Text");
    reveal_strlit("Number");
    reveal_strlit("Date");
    reveal_strlit("DateTime");
    reveal_strlit("Url");
    reveal_strlit("Checkbox");
    reveal_strlit("Node");
    assert("Number"@.len() != "Text"@.len());
    assert("Date"@[0] != "Text"@[0]);
    assert("Date"@.len() != "Number"@.len());
    assert("DateTime"@.len() != "Text"@.len());
    assert("DateTime"@.len() != "Number"@.len());
    assert("DateTime"@.len() != "Date"@.len());
    assert("Url"@.len() != "Text"@.len());
    assert("Url"@.len() != "Number"@.len());
    assert("Url"@.len() != "Date"@.len());
    assert("Url"@.len() != "DateTime"@.len());
    assert("Checkbox"@.len() != "Text"@.len());
    assert("Checkbox"@.len() != "Number"@.len());
    assert("Checkbox"@.len() != "Date"@.len());
    assert("Checkbox"@[0] != "DateTime"@[0]);
    assert("Checkbox"@.len() != "Url"@.len());
    assert("Node"@[0] != "Text"@[0]);
    assert("Node"@.len() != "Number"@.len());
    assert("Node"@[0] != "Date"@[0]);
    assert("Node"@.len() != "DateTime"@.len());
    assert("Node"@.len() != "Url"@.len());
    assert("Node"@.len() != "Checkbox"@.len());
}

/// How many values a property holds.
#[derive(Debug, Clone, Copy, PartialEq, Eq, Hash, Structural)]
pub enum Cardinality {
    /// A single value.
    One,
    /// Several values.
    Many,
}

/// The canonical name of a [`Cardinality`].
pub open spec fn cardinality_name(k: Cardinality) -> Seq<char> {
    match k {
        Cardinality::One => "one"@,
        Cardinality::Many => "many"@,
    }
}

/// The [`Cardinality`] with canonical name `s`, if any.
pub open spec fn cardinality_parse(s: Seq<char>) -> Option<Cardinality> {
    if s == "one"@ {
        Some(Cardinality::One)
    } else if s == "many"@ {
        Some(Cardinality::Many)
    } else {
        None
    }
}

impl Cardinality {
    /// The canonical name: `one`, `many`.
    pub fn as_str(&self) -> (res: &'static str)
        ensures
            res@ == cardinality_name(*self),
    {
        match self {
            Cardinality::One => "one",
            Cardinality::Many => "many",
        }
    }

    /// The value with canonical name `s`; `None` for any other text.
    pub fn from_str(s: &str) -> (res: Option<Cardinality>)
        ensures
            res == cardinality_parse(s@),
    {
        if str_eq(s, "one") {
            Some(Cardinality::One)
        } else if str_eq(s, "many") {
            Some(Cardinality::Many)
        } else {
            None
        }
    }

    /// The canonical name, as `Display` shows it.
    pub fn to_display_string(&self) -> (res: String)
        ensures
            res@ == cardinality_name(*self),
    {
        self.as_str().to_owned()
    }
}

impl Default for Cardinality {
    /// `One`.
    fn default() -> (res: Self)
        ensures
            res == Cardinality::One,
    {
        Cardinality::One
    }
}

/// Parsing a [`Cardinality`]'s name gives it back, and a name that parses is the
/// name of what it parses to.
pub proof fn lemma_cardinality_round_trip(k: Cardinality, s: Seq<char>)
    ensures
        cardinality_parse(cardinality_name(k)) == Some(k),
        cardinality_parse(s) matches Some(j) ==> cardinality_name(j) == s,
{
    reveal_strlit("one");
    reveal_strlit("many");
    assert("many"@.len() != "one"@.len());
}

/// Where a property is shown.
#[derive(Debug, Clone, Copy, PartialEq, Eq, Hash, Structural)]
pub enum ViewContext {
    /// On pages.
    Page,
    /// On blocks.
    Block,
    /// Nowhere.
    Never,
}

/// The canonical name of a [`ViewContext`].
pub open spec fn view_context_name(k: ViewContext) -> Seq<char> {
    match k {
        ViewContext::Page => "page"@,
        ViewContext::Block => "block"@,
        ViewContext::Never => "never"@,
    }
}

/// The [`ViewContext`] with canonical name `s`, if any.
pub open spec fn view_context_parse(s: Seq<char>) -> Option<ViewContext> {
    if s == "page"@ {
        Some(ViewContext::Page)
    } else if s == "block"@ {
        Some(ViewContext::Block)
    } else if s == "never"@ {
        Some(ViewContext::Never)
    } else {
        None
    }
}

impl ViewContext {
    /// The canonical name: `page`, `block`, `never`.
    pub fn as_str(&self) -> (res: &'static str)
        ensures
            res@ == view_context_name(*self),
    {
        match self {
            ViewContext::Page => "page",
            ViewContext::Block => "block",
            ViewContext::Never => "never",
        }
    }

    /// The value with canonical name `s`; `None` for any other text.
    pub fn from_str(s: &str) -> (res: Option<ViewContext>)
        ensures
            res == view_context_parse(s@),
    {
        if str_eq(s, "page") {
            Some(ViewContext::Page)
        } else if str_eq(s, "block") {
            Some(ViewContext::Block)
        } else if str_eq(s, "never") {
            Some(ViewContext::Never)
        } else {
            None
        }
    }

    /// The canonical name, as `Display` shows it.
    pub fn to_display_string(&self) -> (res: String)
        ensures
            res@ == view_context_name(*self),
    {
        self.as_str().to_owned()
    }
}

impl Default for ViewContext {
    /// `Block`.
    fn default() -> (res: Self)
        ensures
            res == ViewContext::Block,
    {
        ViewContext::Block
    }
}

/// Parsing a [`ViewContext`]'s name gives it back, and a name that parses is the
/// name of what it parses to.
pub proof fn lemma_view_context_round_trip(k: ViewContext, s: Seq<char>)
    ensures
        view_context_parse(view_context_name(k)) == Some(k),
        view_context_parse(s) matches Some(j) ==> view_context_name(j) == s,
{
    reveal_strlit("page");
    reveal_strlit("block");
    reveal_strlit("never");
    assert("block"@.len() != "page"@.len());
    assert("never"@.len() != "page"@.len());
    assert("never"@[0] != "block"@[0]);
}

/// The lifecycle state of a property.
#[derive(Debug, Clone, Copy, PartialEq, Eq, Hash, Structural)]
pub enum PropertyStatus {
    /// In use.
    Active,
    /// Kept for old data; not offered for new use.
    Deprecated,
    /// Merged into another property.
    Merged,
    /// Another name of a property.
    Alias,
}

/// The canonical name of a [`PropertyStatus`].
pub open spec fn property_status_name(k: PropertyStatus) -> Seq<char> {
    match k {
        PropertyStatus::Active => "active"@,
        PropertyStatus::Deprecated => "deprecated"@,
        PropertyStatus::Merged => "merged"@,
        PropertyStatus::Alias => "alias"@,
    }
}

/// The [`PropertyStatus`] with canonical name `s`, if any.
pub open spec fn property_status_parse(s: Seq<char>) -> Option<PropertyStatus> {
    if s == "active"@ {
        Some(PropertyStatus::Active)
    } else if s == "deprecated"@ {
        Some(PropertyStatus::Deprecated)
    } else if s == "merged"@ {
        Some(PropertyStatus::Merged)
    } else if s == "alias"@ {
        Some(PropertyStatus::Alias)
    } else {
        None
    }
}

impl PropertyStatus {
    /// The canonical name: `active`, `deprecated`, `merged`, `alias`.
    pub fn as_str(&self) -> (res: &'static str)
        ensures
            res@ == property_status_name(*self),
    {
        match self {
            PropertyStatus::Active => "active",
            PropertyStatus::Deprecated => "deprecated",
            PropertyStatus::Merged => "merged",
            PropertyStatus::Alias => "alias",
        }
    }

    /// The value with canonical name `s`; `None` for any other text.
    pub fn from_str(s: &str) -> (res: Option<PropertyStatus>)
        ensures
            res == property_status_parse(s@),
    {
        if str_eq(s, "active") {
            Some(PropertyStatus::Active)
        } else if str_eq(s, "deprecated") {
            Some(PropertyStatus::Deprecated)
        } else if str_eq(s, "merged") {
            Some(PropertyStatus::Merged)
        } else if str_eq(s, "alias") {
            Some(PropertyStatus::Alias)
        } else {
            None
        }
    }

    /// The canonical name, as `Display` shows it.
    pub fn to_display_string(&self) -> (res: String)
        ensures
            res@ == property_status_name(*self),
    {
        self.as_str().to_owned()
    }
}

impl Default for PropertyStatus {
    /// `Active`.
    fn default() -> (res: Self)
        ensures
            res == PropertyStatus::Active,
    {
        PropertyStatus::Active
    }
}

/// Parsing a [`PropertyStatus`]'s name gives it back, and a name that parses is the
/// name of what it parses to.
pub proof fn lemma_property_status_round_trip(k: PropertyStatus, s: Seq<char>)
    ensures
        property_status_parse(property_status_name(k)) == Some(k),
        property_status_parse(s) matches Some(j) ==> property_status_name(j) == s,
{
    reveal_strlit("active");
    reveal_strlit("deprecated");
    reveal_strlit("merged");
    reveal_strlit("alias");
    assert("deprecated"@.len() != "active"@.len());
    assert("merged"@[0] != "active"@[0]);
    assert("merged"@.len() != "deprecated"@.len());
    assert("alias"@.len() != "active"@.len());
    assert("alias"@.len() != "deprecated"@.len());
    assert("alias"@.len() != "merged"@.len());
}

/// Where a property's value is displayed.
#[derive(Debug, Clone, Copy, PartialEq, Eq, Hash, Structural)]
pub enum PropertyVisibility {
    /// Inline with the block.
    Inline,
    /// In the properties panel.
    Panel,
    /// Managed by the system; not queryable.
    System,
    /// Never shown.
    Hidden,
}

/// The canonical name of a [`PropertyVisibility`].
pub open spec fn property_visibility_name(k: PropertyVisibility) -> Seq<char> {
    match k {
        PropertyVisibility::Inline => "inline"@,
        PropertyVisibility::Panel => "panel"@,
        PropertyVisibility::System => "system"@,
        PropertyVisibility::Hidden => "hidden"@,
    }
}

/// The [`PropertyVisibility`] with canonical name `s`, if any.
pub open spec fn property_visibility_parse(s: Seq<char>) -> Option<PropertyVisibility> {
    if s == "inline"@ {
        Some(PropertyVisibility::Inline)
    } else if s == "panel"@ {
        Some(PropertyVisibility::Panel)
    } else if s == "system"@ {
        Some(PropertyVisibility::System)
    } else if s == "hidden"@ {
        Some(PropertyVisibility::Hidden)
    } else {
        None
    }
}

impl PropertyVisibility {
    /// The canonical name: `inline`, `panel`, `system`, `hidden`.
    pub fn as_str(&self) -> (res: &'static str)
        ensures
            res@ == property_visibility_name(*self),
    {
        match self {
            PropertyVisibility::Inline => "inline",
            PropertyVisibility::Panel => "panel",
            PropertyVisibility::System => "system",
            PropertyVisibility::Hidden => "hidden",
        }
    }

    /// The value with canonical name `s`; `None` for any other text.
    pub fn from_str(s: &str) -> (res: Option<PropertyVisibility>)
        ensures
            res == property_visibility_parse(s@),
    {
        if str_eq(s, "inline") {
            Some(PropertyVisibility::Inline)
        } else if str_eq(s, "panel") {
            Some(PropertyVisibility::Panel)
        } else if str_eq(s, "system") {
            Some(PropertyVisibility::System)
        } else if str_eq(s, "hidden") {
            Some(PropertyVisibility::Hidden)
        } else {
            None
        }
    }

    /// The canonical name, as `Display` shows it.
    pub fn to_display_string(&self) -> (res: String)
        ensures
            res@ == property_visibility_name(*self),
    {
        self.as_str().to_owned()
    }
}

impl Default for PropertyVisibility {
    /// `Inline`.
    fn default() -> (res: Self)
        ensures
            res == PropertyVisibility::Inline,
    {
        PropertyVisibility::Inline
    }
}

/// Parsing a [`PropertyVisibility`]'s name gives it back, and a name that parses is the
/// name of what it parses to.
pub proof fn lemma_property_visibility_round_trip(k: PropertyVisibility, s: Seq<char>)
    ensures
        property_visibility_parse(property_visibility_name(k)) == Some(k),
        property_visibility_parse(s) matches Some(j) ==> property_visibility_name(j) == s,
{
    reveal_strlit("inline");
    reveal_strlit("panel");
    reveal_strlit("system");
    reveal_strlit("hidden");
    assert("panel"@.len() != "inline"@.len());
    assert("system"@[0] != "inline"@[0]);
    assert("system"@.len() != "panel"@.len());
    assert("hidden"@[0] != "inline"@[0]);
    assert("hidden"@.len() != "panel"@.len());
    assert("hidden"@[0] != "system"@[0]);
}

/// Whether users may change a property.
#[derive(Debug, Clone, Copy, PartialEq, Eq, Hash, Structural)]
pub enum PropertyMutability {
    /// Users may change it.
    Mutable,
    /// Users may not change it.
    Immutable,
}

/// The canonical name of a [`PropertyMutability`].
pub open spec fn property_mutability_name(k: PropertyMutability) -> Seq<char> {
    match k {
        PropertyMutability::Mutable => "mutable"@,
        PropertyMutability::Immutable => "immutable"@,
    }
}

/// The [`PropertyMutability`] with canonical name `s`, if any.
pub open spec fn property_mutability_parse(s: Seq<char>) -> Option<PropertyMutability> {
    if s == "mutable"@ {
        Some(PropertyMutability::Mutable)
    } else if s == "immutable"@ {
        Some(PropertyMutability::Immutable)
    } else {
        None
    }
}

impl PropertyMutability {
    /// The canonical name: `mutable`, `immutable`.
    pub fn as_str(&self) -> (res: &'static str)
        ensures
            res@ == property_mutability_name(*self),
    {
        match self {
            PropertyMutability::Mutable => "mutable",
            PropertyMutability::Immutable => "immutable",
        }
    }

    /// The value with canonical name `s`; `None` for any other text.
    pub fn from_str(s: &str) -> (res: Option<PropertyMutability>)
        ensures
            res == property_mutability_parse(s@),
    {
        if str_eq(s, "mutable") {
            Some(PropertyMutability::Mutable)
        } else if str_eq(s, "immutable") {
            Some(PropertyMutability::Immutable)
        } else {
            None
        }
    }

    /// The canonical name, as `Display` shows it.
    pub fn to_display_string(&self) -> (res: String)
        ensures
            res@ == property_mutability_name(*self),
    {
        self.as_str().to_owned()
    }
}

impl Default for PropertyMutability {
    /// `Mutable`.
    fn default() -> (res: Self)
        ensures
            res == PropertyMutability::Mutable,
    {
        PropertyMutability::Mutable
    }
}

/// Parsing a [`PropertyMutability`]'s name gives it back, and a name that parses is the
/// name of what it parses to.
pub proof fn lemma_property_mutability_round_trip(k: PropertyMutability, s: Seq<char>)
    ensures
        property_mutability_parse(property_mutability_name(k)) == Some(k),
        property_mutability_parse(s) matches Some(j) ==> property_mutability_name(j) == s,
{
    reveal_strlit("mutable");
    reveal_strlit("immutable");
    assert("immutable"@.len() != "mutable"@.len());
}

/// How a property patch combines with an existing value.
#[derive(Debug, Clone, Copy, PartialEq, Eq, Hash, Structural)]
pub enum MergePolicy {
    /// Write only if no value exists.
    SetIfMissing,
    /// Replace the existing value.
    Overwrite,
    /// Append to the existing values.
    Append,
    /// Add the values not already present.
    Union,
    /// Reject the patch if the values differ.
    RejectOnConflict,
    /// Ask for confirmation if the values differ.
    AskOnConflict,
}

/// The canonical name of a [`MergePolicy`].
pub open spec fn merge_policy_name(k: MergePolicy) -> Seq<char> {
    match k {
        MergePolicy::SetIfMissing => "set_if_missing"@,
        MergePolicy::Overwrite => "overwrite"@,
        MergePolicy::Append => "append"@,
        MergePolicy::Union => "union"@,
        MergePolicy::RejectOnConflict => "reject_on_conflict"@,
        MergePolicy::AskOnConflict => "ask_on_conflict"@,
    }
}

/// The [`MergePolicy`] with canonical name `s`, if any.
pub open spec fn merge_policy_parse(s: Seq<char>) -> Option<MergePolicy> {
    if s == "set_if_missing"@ {
        Some(MergePolicy::SetIfMissing)
    } else if s == "overwrite"@ {
        Some(MergePolicy::Overwrite)
    } else if s == "append"@ {
        Some(MergePolicy::Append)
    } else if s == "union"@ {
        Some(MergePolicy::Union)
    } else if s == "reject_on_conflict"@ {
        Some(MergePolicy::RejectOnConflict)
    } else if s == "ask_on_conflict"@ {
        Some(MergePolicy::AskOnConflict)
    } else {
        None
    }
}

impl MergePolicy {
    /// The canonical name: `set_if_missing`, `overwrite`, `append`, `union`, `reject_on_conflict`, `ask_on_conflict`.
    pub fn as_str(&self) -> (res: &'static str)
        ensures
            res@ == merge_policy_name(*self),
    {
        match self {
            MergePolicy::SetIfMissing => "set_if_missing",
            MergePolicy::Overwrite => "overwrite",
            MergePolicy::Append => "append",
            MergePolicy::Union => "union",
            MergePolicy::RejectOnConflict => "reject_on_conflict",
            MergePolicy::AskOnConflict => "ask_on_conflict",
        }
    }

    /// The value with canonical name `s`; `None` for any other text.
    pub fn from_str(s: &str) -> (res: Option<MergePolicy>)
        ensures
            res == merge_policy_parse(s@),
    {
        if str_eq(s, "set_if_missing") {
            Some(MergePolicy::SetIfMissing)
        } else if str_eq(s, "overwrite") {
            Some(MergePolicy::Overwrite)
        } else if str_eq(s, "append") {
            Some(MergePolicy::Append)
        } else if str_eq(s, "union") {
            Some(MergePolicy::Union)
        } else if str_eq(s, "reject_on_conflict") {
            Some(MergePolicy::RejectOnConflict)
        } else if str_eq(s, "ask_on_conflict") {
            Some(MergePolicy::AskOnConflict)
        } else {
            None
        }
    }

    /// The canonical name, as `Display` shows it.
    pub fn to_display_string(&self) -> (res: String)
        ensures
            res@ == merge_policy_name(*self),
    {
        self.as_str().to_owned()
    }
}

impl Default for MergePolicy {
    /// `SetIfMissing`.
    fn default() -> (res: Self)
        ensures
            res == MergePolicy::SetIfMissing,
    {
        MergePolicy::SetIfMissing
    }
}

/// Parsing a [`MergePolicy`]'s name gives it back, and a name that parses is the
/// name of what it parses to.
pub proof fn lemma_merge_policy_round_trip(k: MergePolicy, s: Seq<char>)
    ensures
        merge_policy_parse(merge_policy_name(k)) == Some(k),
        merge_policy_parse(s) matches Some(j) ==> merge_policy_name(j) == s,
{
    reveal_strlit("set_if_missing");
    reveal_strlit("overwrite");
    reveal_strlit("append");
    reveal_strlit("union");
    reveal_strlit("reject_on_conflict");
    reveal_strlit("ask_on_conflict");
    assert("overwrite"@.len() != "set_if_missing"@.len());
    assert("append"@.len() != "set_if_missing"@.len());
    assert("append"@.len() != "overwrite"@.len());
    assert("union"@.len() != "set_if_missing"@.len());
    assert("union"@.len() != "overwrite"@.len());
    assert("union"@.len() != "append"@.len());
    assert("reject_on_conflict"@.len() != "set_if_missing"@.len());
    assert("reject_on_conflict"@.len() != "overwrite"@.len());
    assert("reject_on_conflict"@.len() != "append"@.len());
    assert("reject_on_conflict"@.len() != "union"@.len());
    assert("ask_on_conflict"@.len() != "set_if_missing"@.len());
    assert("ask_on_conflict"@.len() != "overwrite"@.len());
    assert("ask_on_conflict"@.len() != "append"@.len());
    assert("ask_on_conflict"@.len() != "union"@.len());
    assert("ask_on_conflict"@.len() != "reject_on_conflict"@.len());
}
impl PropertyVisibility {
    /// The visibility a legacy view context maps to: blocks show inline,
    /// pages in the panel, and `Never` is a system property.
    pub fn from_view_context(vc: &ViewContext) -> (res: PropertyVisibility)
        ensures
            res == match *vc {
                ViewContext::Block => PropertyVisibility::Inline,
                ViewContext::Page => PropertyVisibility::Panel,
                ViewContext::Never => PropertyVisibility::System,
            },
    {
        match vc {
            ViewContext::Block => PropertyVisibility::Inline,
            ViewContext::Page => PropertyVisibility::Panel,
            ViewContext::Never => PropertyVisibility::System,
        }
    }
}

impl PropertyMutability {
    /// `Immutable` for a read-only property, `Mutable` otherwise.
    pub fn from_read_only(read_only: bool) -> (res: PropertyMutability)
        ensures
            res == (if read_only {
                PropertyMutability::Immutable
            } else {
                PropertyMutability::Mutable
            }),
    {
        if read_only {
            PropertyMutability::Immutable
        } else {
            PropertyMutability::Mutable
        }
    }

    /// Whether this is `Immutable`.
    pub fn to_read_only(self) -> (res: bool)
        ensures
            res == (self == PropertyMutability::Immutable),
    {
        self == PropertyMutability::Immutable
    }
}

/// The merge policies of the first-version properties, by key. `content`,
/// `text` and `children` have none: presets never touch them.
pub open spec fn v1_policy_table() -> Seq<(Seq<char>, MergePolicy)> {
    seq![
        ("type"@, MergePolicy::SetIfMissing),
        ("projection"@, MergePolicy::SetIfMissing),
        ("status"@, MergePolicy::Overwrite),
        ("focus"@, MergePolicy::Overwrite),
        ("tags"@, MergePolicy::Union),
        ("scheduled"@, MergePolicy::Overwrite),
        ("deadline"@, MergePolicy::Overwrite),
        ("media-type"@, MergePolicy::AskOnConflict),
        ("source-url"@, MergePolicy::AskOnConflict),
    ]
}

impl MergePolicy {
    /// The merge policy table of the first-version properties, in order.
    pub fn adr_0025_v1_table() -> (res: Vec<(&'static str, MergePolicy)>)
        ensures
            res@.len() == v1_policy_table().len(),
            forall|i: int|
                0 <= i < res@.len() ==> (#[trigger] res@[i]).0@ == v1_policy_table()[i].0
                    && res@[i].1 == v1_policy_table()[i].1,
    {
        let mut t: Vec<(&'static str, MergePolicy)> = Vec::new();
        t.push(("type", MergePolicy::SetIfMissing));
        t.push(("projection", MergePolicy::SetIfMissing));
        t.push(("status", MergePolicy::Overwrite));
        t.push(("focus", MergePolicy::Overwrite));
        t.push(("tags", MergePolicy::Union));
        t.push(("scheduled", MergePolicy::Overwrite));
        t.push(("deadline", MergePolicy::Overwrite));
        t.push(("media-type", MergePolicy::AskOnConflict));
        t.push(("source-url", MergePolicy::AskOnConflict));
        t
    }
}

/// Where a derived property's value comes from.
#[derive(Debug, Clone, PartialEq, Eq)]
pub enum DerivedSource {
    /// The block's content.
    BlockContent,
    /// Markdown syntax.
    Markdown,
    /// The canonicalization pipeline.
    Canonicalization,
    /// An importer.
    Importer,
    /// Another property, by key.
    OtherProperty(String),
}

/// The canonical name of a derived source's kind.
pub open spec fn derived_source_name(d: DerivedSource) -> Seq<char> {
    match d {
        DerivedSource::BlockContent => "block_content"@,
        DerivedSource::Markdown => "markdown"@,
        DerivedSource::Canonicalization => "canonicalization"@,
        DerivedSource::Importer => "importer"@,
        DerivedSource::OtherProperty(_) => "other_property"@,
    }
}

/// How a derived source is displayed: its kind's name, with the property
/// key in brackets for `OtherProperty`.
pub open spec fn derived_source_text(d: DerivedSource) -> Seq<char> {
    match d {
        DerivedSource::OtherProperty(name) => "other_property("@ + name@ + ")"@,
        _ => derived_source_name(d),
    }
}

impl DerivedSource {
    /// The canonical name of the kind: `block_content`, `markdown`,
    /// `canonicalization`, `importer` or `other_property`.
    pub fn as_str(&self) -> (res: &'static str)
        ensures
            res@ == derived_source_name(*self),
    {
        match self {
            DerivedSource::BlockContent => "block_content",
            DerivedSource::Markdown => "markdown",
            DerivedSource::Canonicalization => "canonicalization",
            DerivedSource::Importer => "importer",
            DerivedSource::OtherProperty(_) => "other_property",
        }
    }

    /// The source as `Display` shows it.
    pub fn to_display_string(&self) -> (res: String)
        ensures
            res@ == derived_source_text(*self),
    {
        match self {
            DerivedSource::OtherProperty(name) => {
                let mut r = "other_property(".to_owned();
                r.append(name.as_str());
                r.append(")");
                r
            },
            _ => self.as_str().to_owned(),
        }
    }

    /// A copy of this source.
    pub fn duplicate(&self) -> (res: DerivedSource)
        ensures
            derived_source_text(res) == derived_source_text(*self),
            derived_source_name(res) == derived_source_name(*self),
    {
        match self {
            DerivedSource::BlockContent => DerivedSource::BlockContent,
            DerivedSource::Markdown => DerivedSource::Markdown,
            DerivedSource::Canonicalization => DerivedSource::Canonicalization,
            DerivedSource::Importer => DerivedSource::Importer,
            DerivedSource::OtherProperty(n) => DerivedSource::OtherProperty(n.clone()),
        }
    }
}

/// One allowed value of a closed-set property.
#[derive(Debug, Clone, PartialEq)]
pub struct ClosedValue {
    /// Identifier of the value.
    pub id: Uuid,
    /// Key of the value, such as `todo`.
    pub db_ident: String,
    /// Display text, such as `To Do`.
    pub value: String,
    /// Optional icon.
    pub icon: Option<String>,
    /// Rank among the property's values.
    pub order: i64,
}

impl ClosedValue {
    /// A value with no icon, at rank 0.
    pub fn new(id: Uuid, db_ident: &str, value: &str) -> (res: ClosedValue)
        ensures
            res.id == id,
            res.db_ident@ == db_ident@,
            res.value@ == value@,
            res.icon is None,
            res.order == 0,
    {
        ClosedValue {
            id,
            db_ident: db_ident.to_owned(),
            value: value.to_owned(),
            icon: None,
            order: 0,
        }
    }

    /// The same value with an icon.
    pub fn with_icon(self, icon: &str) -> (res: ClosedValue)
        ensures
            res.id == self.id,
            res.db_ident == self.db_ident,
            res.value == self.value,
            opt_view(res.icon) == Some(icon@),
            res.order == self.order,
    {
        ClosedValue { icon: Some(icon.to_owned()), ..self }
    }

    /// The same value at another rank.
    pub fn with_order(self, order: i64) -> (res: ClosedValue)
        ensures
            res.id == self.id,
            res.db_ident == self.db_ident,
            res.value == self.value,
            res.icon == self.icon,
            res.order == order,
    {
        ClosedValue { order, ..self }
    }

    /// A copy of this value.
    pub fn duplicate(&self) -> (res: ClosedValue)
        ensures
            res.id == self.id,
            res.db_ident@ == self.db_ident@,
            res.value@ == self.value@,
            opt_view(res.icon) == opt_view(self.icon),
            res.order == self.order,
    {
        ClosedValue {
            id: self.id,
            db_ident: self.db_ident.clone(),
            value: self.value.clone(),
            icon: clone_opt(&self.icon),
            order: self.order,
        }
    }
}

} // verus!
