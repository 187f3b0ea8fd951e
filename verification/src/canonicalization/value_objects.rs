//! Value objects of the canonicalization pipeline: inputs, property
//! patches, their outcomes and conflicts.

use crate::content::block_segment::SegV;
use crate::content::BlockContent;
use crate::entities::block::Block;
use crate::entities::template_contract::PropertyKey;
use crate::properties::types::MergePolicy;
use crate::value_objects::{pv, PValue, PropertyValue};
use vstd::prelude::*;

verus! {

/// What produced an input to the pipeline.
#[derive(Debug, Clone, Copy, PartialEq, Eq, Hash, Structural)]
pub enum SourceKind {
    /// Markdown block content.
    Markdown,
    /// Pasted content.
    Paste,
    /// A slash command.
    SlashCommand,
    /// A picker.
    Picker,
    /// The API.
    Api,
    /// The MCP protocol.
    Mcp,
}

/// An input to the canonicalization pipeline.
#[derive(Debug, Clone, PartialEq, Eq)]
pub struct CanonicalInput {
    /// The raw text.
    pub text: String,
    /// What produced it.
    pub source_kind: SourceKind,
    /// The page it was entered on, for resolving relative references.
    pub context_page: Option<String>,
}

impl CanonicalInput {
    /// Markdown input with no page context.
    pub fn from_text(text: &str) -> (res: CanonicalInput)
        ensures
            res.text@ == text@,
            res.source_kind == SourceKind::Markdown,
            res.context_page is None,
    {
        CanonicalInput { text: text.to_owned(), source_kind: SourceKind::Markdown, context_page: None }
    }

    /// The same input with page context `page`.
    pub fn with_context_page(self, page: &str) -> (res: CanonicalInput)
        ensures
            res.text == self.text,
            res.source_kind == self.source_kind,
            res.context_page matches Some(p) && p@ == page@,
    {
        CanonicalInput { context_page: Some(page.to_owned()), ..self }
    }
}

/// Whether a patch was derived by the canonicalizer or set by the user.
#[derive(Debug, Clone, Copy, PartialEq, Eq, Hash, Structural)]
pub enum PropertyPatchProvenance {
    /// Derived from input syntax.
    Derived,
    /// Set explicitly by the user.
    Explicit,
}

/// One property write to apply to a block.
#[derive(Debug, Clone, PartialEq)]
pub struct PropertyPatch {
    /// The property key.
    pub key: PropertyKey,
    /// The value to write.
    pub value: PropertyValue,
    /// Where the patch comes from.
    pub provenance: PropertyPatchProvenance,
}

impl PropertyPatch {
    /// A patch derived by the canonicalizer.
    pub fn derived(key: PropertyKey, value: PropertyValue) -> (res: PropertyPatch)
        ensures
            res.key == key,
            res.value == value,
            res.provenance == PropertyPatchProvenance::Derived,
    {
        PropertyPatch { key, value, provenance: PropertyPatchProvenance::Derived }
    }

    /// A patch set by the user.
    pub fn explicit(key: PropertyKey, value: PropertyValue) -> (res: PropertyPatch)
        ensures
            res.key == key,
            res.value == value,
            res.provenance == PropertyPatchProvenance::Explicit,
    {
        PropertyPatch { key, value, provenance: PropertyPatchProvenance::Explicit }
    }

    /// A copy of this patch.
    pub fn duplicate(&self) -> (res: PropertyPatch)
        ensures
            res.key@ == self.key@,
            pv(res.value) == pv(self.value),
            res.provenance == self.provenance,
    {
        PropertyPatch {
            key: self.key.duplicate(),
            value: self.value.clone(),
            provenance: self.provenance,
        }
    }
}

/// A conflict found while applying a patch under `AskOnConflict`.
#[derive(Debug, Clone, PartialEq)]
pub struct ProjectionConflict {
    /// The property.
    pub property: PropertyKey,
    /// The block's current value.
    pub existing_value: PropertyValue,
    /// The value the patch tried to write.
    pub attempted_value: PropertyValue,
    /// The policy that raised it.
    pub policy: MergePolicy,
    /// Why it is a conflict.
    pub reason: String,
}

/// The outcome of applying a patch.
#[derive(Debug, Clone, PartialEq)]
pub struct PatchOutcome {
    /// A copy of the block.
    pub block: Block,
    /// Conflicts found.
    pub conflicts: Vec<ProjectionConflict>,
    /// Keys written by derived patches.
    pub derived_materialized: Vec<PropertyKey>,
    /// Keys left alone.
    pub skipped: Vec<PropertyKey>,
}

impl PatchOutcome {
    /// An outcome with no conflicts, writes or skips.
    pub fn unchanged(block: Block) -> (res: PatchOutcome)
        ensures
            res.block == block,
            res.conflicts@.len() == 0,
            res.derived_materialized@.len() == 0,
            res.skipped@.len() == 0,
    {
        PatchOutcome {
            block,
            conflicts: Vec::new(),
            derived_materialized: Vec::new(),
            skipped: Vec::new(),
        }
    }
}

/// The result of canonicalizing an input.
#[derive(Debug, Clone, PartialEq)]
pub struct CanonicalizationResult {
    /// The content, equal to the input.
    pub content: BlockContent,
    /// Patches derived from the input's syntax.
    pub derived: Vec<PropertyPatch>,
    /// Patches applied by the caller.
    pub applied: Vec<PropertyPatch>,
}

impl CanonicalizationResult {
    /// A result with no patches.
    pub fn empty(content: BlockContent) -> (res: CanonicalizationResult)
        ensures
            res.content == content,
            res.derived@.len() == 0,
            res.applied@.len() == 0,
    {
        CanonicalizationResult { content, derived: Vec::new(), applied: Vec::new() }
    }

    /// A result with no patches (same as `empty`).
    pub fn content_only(content: BlockContent) -> (res: CanonicalizationResult)
        ensures
            res.content == content,
            res.derived@.len() == 0,
            res.applied@.len() == 0,
    {
        Self::empty(content)
    }
}

} // verus!
