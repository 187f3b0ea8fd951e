//! Annotations: comments on a block, addressed to an agent.
//!
//! A human (or an agent) attaches an annotation to a block, or to a range of
//! its content, asking for review, correction or enrichment. Agents pick up
//! pending annotations, work on them and mark them resolved; a human may
//! dismiss them instead.

use crate::clock::now_millis;
use crate::errors::domain_error::DomainError;
use crate::text::{str_eq, trim, trim_seq};
use crate::value_objects::Uuid;
use vstd::prelude::*;

verus! {

/// Who wrote an annotation.
#[derive(Debug, Clone, Copy, PartialEq, Eq, Hash, Structural)]
pub enum AuthorType {
    /// A human user.
    Human,
    /// An AI agent.
    Agent,
}

/// The canonical name of an [`AuthorType`].
pub open spec fn author_type_name(k: AuthorType) -> Seq<char> {
    match k {
        AuthorType::Human => "human"@,
        AuthorType::Agent => "agent"@,
    }
}

/// The [`AuthorType`] with canonical name `s`, if any.
pub open spec fn author_type_parse(s: Seq<char>) -> Option<AuthorType> {
    if s == "human"@ {
        Some(AuthorType::Human)
    } else if s == "agent"@ {
        Some(AuthorType::Agent)
    } else {
        None
    }
}

impl AuthorType {
    /// The canonical name: `human`, `agent`.
    pub fn as_str(&self) -> (res: &'static str)
        ensures
            res@ == author_type_name(*self),
    {
        match self {
            AuthorType::Human => "human",
            AuthorType::Agent => "agent",
        }
    }

    /// The value with canonical name `s`; `None` for any other text.
    pub fn try_from_str(s: &str) -> (res: Option<AuthorType>)
        ensures
            res == author_type_parse(s@),
    {
        if str_eq(s, "human") {
            Some(AuthorType::Human)
        } else if str_eq(s, "agent") {
            Some(AuthorType::Agent)
        } else {
            None
        }
    }
}

/// Parsing an [`AuthorType`]'s name gives it back, and a name that parses is the
/// name of what it parses to.
pub proof fn lemma_author_type_round_trip(k: AuthorType, s: Seq<char>)
    ensures
        author_type_parse(author_type_name(k)) == Some(k),
        author_type_parse(s) matches Some(j) ==> author_type_name(j) == s,
{
    reveal_strlit("human");
    reveal_strlit("agent");
    assert("agent"@[0] != "human"@[0]);
}

/// Where an annotation is in its lifecycle.
#[derive(Debug, Clone, Copy, PartialEq, Eq, Hash, Structural)]
pub enum AnnotationStatus {
    /// Awaiting agent action.
    Pending,
    /// An agent is working on it.
    InProgress,
    /// An agent resolved it.
    Resolved,
    /// A human dismissed it.
    Dismissed,
}

/// The canonical name of an [`AnnotationStatus`].
pub open spec fn annotation_status_name(k: AnnotationStatus) -> Seq<char> {
    match k {
        AnnotationStatus::Pending => "pending"@,
        AnnotationStatus::InProgress => "in_progress"@,
        AnnotationStatus::Resolved => "resolved"@,
        AnnotationStatus::Dismissed => "dismissed"@,
    }
}

/// The [`AnnotationStatus`] with canonical name `s`, if any.
pub open spec fn annotation_status_parse(s: Seq<char>) -> Option<AnnotationStatus> {
    if s == "pending"@ {
        Some(AnnotationStatus::Pending)
    } else if s == "in_progress"@ {
        Some(AnnotationStatus::InProgress)
    } else if s == "resolved"@ {
        Some(AnnotationStatus::Resolved)
    } else if s == "dismissed"@ {
        Some(AnnotationStatus::Dismissed)
    } else {
        None
    }
}

impl AnnotationStatus {
    /// Whether the status is final: `Resolved` or `Dismissed`.
    pub fn is_terminal(&self) -> (res: bool)
        ensures
            res == status_is_terminal(*self),
    {
        match self {
            AnnotationStatus::Resolved | AnnotationStatus::Dismissed => true,
            _ => false,
        }
    }

    /// The canonical name: `pending`, `in_progress`, `resolved`, `dismissed`.
    pub fn as_str(&self) -> (res: &'static str)
        ensures
            res@ == annotation_status_name(*self),
    {
        match self {
            AnnotationStatus::Pending => "pending",
            AnnotationStatus::InProgress => "in_progress",
            AnnotationStatus::Resolved => "resolved",
            AnnotationStatus::Dismissed => "dismissed",
        }
    }

    /// The value with canonical name `s`; `None` for any other text.
    pub fn try_from_str(s: &str) -> (res: Option<AnnotationStatus>)
        ensures
            res == annotation_status_parse(s@),
    {
        if str_eq(s, "pending") {
            Some(AnnotationStatus::Pending)
        } else if str_eq(s, "in_progress") {
            Some(AnnotationStatus::InProgress)
        } else if str_eq(s, "resolved") {
            Some(AnnotationStatus::Resolved)
        } else if str_eq(s, "dismissed") {
            Some(AnnotationStatus::Dismissed)
        } else {
            None
        }
    }
}

/// Parsing an [`AnnotationStatus`]'s name gives it back, and a name that parses is the
/// name of what it parses to.
pub proof fn lemma_annotation_status_round_trip(k: AnnotationStatus, s: Seq<char>)
    ensures
        annotation_status_parse(annotation_status_name(k)) == Some(k),
        annotation_status_parse(s) matches Some(j) ==> annotation_status_name(j) == s,
{
    reveal_strlit("pending");
    reveal_strlit("in_progress");
    reveal_strlit("resolved");
    reveal_strlit("dismissed");
    assert("in_progress"@.len() != "pending"@.len());
    assert("resolved"@.len() != "pending"@.len());
    assert("resolved"@.len() != "in_progress"@.len());
    assert("dismissed"@.len() != "pending"@.len());
    assert("dismissed"@.len() != "in_progress"@.len());
    assert("dismissed"@.len() != "resolved"@.len());
}

/// What an annotation is attached to.
#[derive(Debug, Clone, Copy, PartialEq, Eq, Hash, Structural)]
pub enum AnnotationScope {
    /// The whole block.
    Block,
    /// A range of the block's content.
    Inline,
}

/// The canonical name of an [`AnnotationScope`].
pub open spec fn annotation_scope_name(k: AnnotationScope) -> Seq<char> {
    match k {
        AnnotationScope::Block => "block"@,
        AnnotationScope::Inline => "inline"@,
    }
}

/// The [`AnnotationScope`] with canonical name `s`, if any.
pub open spec fn annotation_scope_parse(s: Seq<char>) -> Option<AnnotationScope> {
    if s == "block"@ {
        Some(AnnotationScope::Block)
    } else if s == "inline"@ {
        Some(AnnotationScope::Inline)
    } else {
        None
    }
}

impl AnnotationScope {
    /// The canonical name: `block`, `inline`.
    pub fn as_str(&self) -> (res: &'static str)
        ensures
            res@ == annotation_scope_name(*self),
    {
        match self {
            AnnotationScope::Block => "block",
            AnnotationScope::Inline => "inline",
        }
    }

    /// The value with canonical name `s`; `None` for any other text.
    pub fn try_from_str(s: &str) -> (res: Option<AnnotationScope>)
        ensures
            res == annotation_scope_parse(s@),
    {
        if str_eq(s, "block") {
            Some(AnnotationScope::Block)
        } else if str_eq(s, "inline") {
            Some(AnnotationScope::Inline)
        } else {
            None
        }
    }
}

/// Parsing an [`AnnotationScope`]'s name gives it back, and a name that parses is the
/// name of what it parses to.
pub proof fn lemma_annotation_scope_round_trip(k: AnnotationScope, s: Seq<char>)
    ensures
        annotation_scope_parse(annotation_scope_name(k)) == Some(k),
        annotation_scope_parse(s) matches Some(j) ==> annotation_scope_name(j) == s,
{
    reveal_strlit("block");
    reveal_strlit("inline");
    assert("inline"@.len() != "block"@.len());
}


/// Whether a status is final (`Resolved` or `Dismissed`).
pub open spec fn status_is_terminal(s: AnnotationStatus) -> bool {
    s == AnnotationStatus::Resolved || s == AnnotationStatus::Dismissed
}

/// The status after `set_in_progress`: a pending annotation becomes in
/// progress; any other status stays.
pub open spec fn status_after_start(s: AnnotationStatus) -> AnnotationStatus {
    if s == AnnotationStatus::Pending {
        AnnotationStatus::InProgress
    } else {
        s
    }
}

/// A comment on a block, addressed to an agent. Times are milliseconds
/// since the Unix epoch.
#[derive(Debug, Clone, PartialEq)]
pub struct Annotation {
    /// Unique identifier.
    pub id: Uuid,
    /// The block the annotation refers to.
    pub block_id: Uuid,
    /// Whether a human or an agent wrote it.
    pub author_type: AuthorType,
    /// The author's name (user name or agent id).
    pub author_name: String,
    /// The text, in markdown.
    pub content: String,
    /// Lifecycle state.
    pub status: AnnotationStatus,
    /// The annotation this one replies to, if any.
    pub parent_annotation_id: Option<Uuid>,
    /// Whole block or a range of its content.
    pub scope: AnnotationScope,
    /// Start offset of the highlighted range.
    pub highlight_start: Option<u32>,
    /// End offset of the highlighted range.
    pub highlight_end: Option<u32>,
    /// Creation time.
    pub created_at: i64,
    /// When it was resolved.
    pub resolved_at: Option<i64>,
    /// Who resolved it.
    pub resolved_by: Option<String>,
}

/// What is needed to create an annotation.
#[derive(Debug, Clone)]
pub struct AnnotationCreate {
    /// The block the annotation refers to.
    pub block_id: Uuid,
    /// Whether a human or an agent writes it.
    pub author_type: AuthorType,
    /// The author's name.
    pub author_name: String,
    /// The text, in markdown.
    pub content: String,
    /// The annotation this one replies to, if any.
    pub parent_annotation_id: Option<Uuid>,
    /// Whole block or a range of its content.
    pub scope: AnnotationScope,
    /// Start offset of the highlighted range.
    pub highlight_start: Option<u32>,
    /// End offset of the highlighted range.
    pub highlight_end: Option<u32>,
}

/// Whether an inline annotation's offsets are acceptable: both are given
/// and the start lies before the end. Block annotations need none.
pub open spec fn highlight_ok(c: AnnotationCreate) -> bool {
    c.scope == AnnotationScope::Inline ==> (match (c.highlight_start, c.highlight_end) {
        (Some(s), Some(e)) => s < e,
        _ => false,
    })
}

/// The annotation that `c` describes, with the given id and creation time:
/// pending, unresolved.
pub open spec fn created_annotation(c: AnnotationCreate, id: Uuid, now: i64) -> Annotation {
    Annotation {
        id,
        block_id: c.block_id,
        author_type: c.author_type,
        author_name: c.author_name,
        content: c.content,
        status: AnnotationStatus::Pending,
        parent_annotation_id: c.parent_annotation_id,
        scope: c.scope,
        highlight_start: c.highlight_start,
        highlight_end: c.highlight_end,
        created_at: now,
        resolved_at: None,
        resolved_by: None,
    }
}

/// The message of the error for blank content.
pub open spec fn empty_content_message() -> Seq<char> {
    "Annotation content cannot be empty"@
}

/// The message of the error for an inline annotation without a valid range.
pub open spec fn inline_range_message() -> Seq<char> {
    "Inline annotation requires both highlightStart and highlightEnd offsets"@
}

impl Annotation {
    /// Creates an annotation with the given id and creation time.
    ///
    /// Fails with `InvalidData` when the content is blank (empty once
    /// white-space is trimmed), and otherwise when an inline annotation
    /// lacks an offset or its start is not before its end.
    pub fn new_at(create: AnnotationCreate, id: Uuid, now: i64) -> (res: Result<
        Annotation,
        DomainError,
    >)
        ensures
            trim_seq(create.content@).len() == 0 ==> (res matches Err(DomainError::InvalidData(m))
                && m@ == empty_content_message()),
            trim_seq(create.content@).len() > 0 && !highlight_ok(create) ==> (res matches Err(
                DomainError::InvalidData(m),
            ) && m@ == inline_range_message()),
            trim_seq(create.content@).len() > 0 && highlight_ok(create) ==> res == Ok::<
                Annotation,
                DomainError,
            >(created_annotation(create, id, now)),
    {
        let trimmed = trim(create.content.as_str());
        if trimmed.as_str().unicode_len() == 0 {
            return Err(DomainError::InvalidData("Annotation content cannot be empty".to_owned()));
        }
        if create.scope == AnnotationScope::Inline {
            let ok = match (create.highlight_start, create.highlight_end) {
                (Some(start), Some(end)) => start < end,
                _ => false,
            };
            if !ok {
                return Err(
                    DomainError::InvalidData(
                        "Inline annotation requires both highlightStart and highlightEnd offsets".to_owned(),
                    ),
                );
            }
        }
        Ok(Annotation {
            id,
            block_id: create.block_id,
            author_type: create.author_type,
            author_name: create.author_name,
            content: create.content,
            status: AnnotationStatus::Pending,
            parent_annotation_id: create.parent_annotation_id,
            scope: create.scope,
            highlight_start: create.highlight_start,
            highlight_end: create.highlight_end,
            created_at: now,
            resolved_at: None,
            resolved_by: None,
        })
    }

    /// Creates an annotation with a fresh random id, created now. Fails as
    /// `new_at` does; on success the annotation is pending, unresolved, and
    /// holds what `create` gave.
    pub fn new(create: AnnotationCreate) -> (res: Result<Annotation, DomainError>)
        ensures
            trim_seq(create.content@).len() == 0 ==> (res matches Err(DomainError::InvalidData(m))
                && m@ == empty_content_message()),
            trim_seq(create.content@).len() > 0 && !highlight_ok(create) ==> (res matches Err(
                DomainError::InvalidData(m),
            ) && m@ == inline_range_message()),
            trim_seq(create.content@).len() > 0 && highlight_ok(create) ==> (res matches Ok(a)
                && a == created_annotation(create, a.id, a.created_at) && a.id.value != 0),
    {
        let trimmed = trim(create.content.as_str());
        if trimmed.as_str().unicode_len() == 0 || !Self::highlight_valid(&create) {
            return Self::new_at(create, Uuid::nil(), 0);
        }
        let id = Uuid::new_v4();
        let now = now_millis();
        Self::new_at(create, id, now)
    }

    fn highlight_valid(create: &AnnotationCreate) -> (res: bool)
        ensures
            res == highlight_ok(*create),
    {
        if create.scope == AnnotationScope::Inline {
            match (create.highlight_start, create.highlight_end) {
                (Some(start), Some(end)) => start < end,
                _ => false,
            }
        } else {
            true
        }
    }

    /// Marks the annotation resolved by `resolved_by` at time `now`.
    pub fn resolve_at(&mut self, resolved_by: String, now: i64)
        ensures
            *final(self) == (Annotation {
                status: AnnotationStatus::Resolved,
                resolved_at: Some(now),
                resolved_by: Some(resolved_by),
                ..*old(self)
            }),
    {
        self.status = AnnotationStatus::Resolved;
        self.resolved_at = Some(now);
        self.resolved_by = Some(resolved_by);
    }

    /// Marks the annotation resolved by `resolved_by`, now.
    pub fn resolve(&mut self, resolved_by: String)
        ensures
            final(self).resolved_at is Some,
            *final(self) == (Annotation {
                status: AnnotationStatus::Resolved,
                resolved_at: final(self).resolved_at,
                resolved_by: Some(resolved_by),
                ..*old(self)
            }),
    {
        let now = now_millis();
        self.resolve_at(resolved_by, now);
    }

    /// Starts work on a pending annotation; any other status stays.
    pub fn set_in_progress(&mut self)
        ensures
            *final(self) == (Annotation { status: status_after_start(old(self).status), ..*old(self) }),
    {
        if self.status == AnnotationStatus::Pending {
            self.status = AnnotationStatus::InProgress;
        }
    }

    /// Dismisses the annotation, whatever its status.
    pub fn dismiss(&mut self)
        ensures
            *final(self) == (Annotation { status: AnnotationStatus::Dismissed, ..*old(self) }),
    {
        self.status = AnnotationStatus::Dismissed;
    }

    /// Whether the annotation awaits agent action.
    pub fn is_pending(&self) -> (res: bool)
        ensures
            res == (self.status == AnnotationStatus::Pending),
    {
        self.status == AnnotationStatus::Pending
    }

    /// Whether an agent has resolved the annotation.
    pub fn is_resolved(&self) -> (res: bool)
        ensures
            res == (self.status == AnnotationStatus::Resolved),
    {
        self.status == AnnotationStatus::Resolved
    }

    /// Whether the annotation refers to the block `block_id`.
    pub fn belongs_to_block(&self, block_id: Uuid) -> (res: bool)
        ensures
            res == (self.block_id == block_id),
    {
        self.block_id == block_id
    }
}

/// Starting work leaves a final status as it is, and starting twice is the
/// same as starting once; after a resolve or a dismissal the status is final.
pub proof fn lemma_annotation_lifecycle(s: AnnotationStatus)
    ensures
        status_is_terminal(s) ==> status_after_start(s) == s,
        status_after_start(status_after_start(s)) == status_after_start(s),
        status_is_terminal(AnnotationStatus::Resolved),
        status_is_terminal(AnnotationStatus::Dismissed),
        !status_is_terminal(status_after_start(AnnotationStatus::Pending)),
{
}

} // verus!
