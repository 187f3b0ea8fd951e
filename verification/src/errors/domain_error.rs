//! `DomainError`: the errors of the domain layer, and their messages.

use crate::canonicalization::presets::{PresetArgKind, PresetId};
use crate::text::{concat2, concat3};
use crate::value_objects::{hyphenated, PropertyValue, Uuid};
use vstd::prelude::*;

verus! {

/// Errors that occur in the domain layer (never infrastructure failures).
#[derive(Debug, PartialEq)]
pub enum DomainError {
    /// Block was not found.
    BlockNotFound(Uuid),
    /// Page was not found.
    PageNotFound(Uuid),
    /// File was not found.
    FileNotFound(Uuid),
    /// Invalid page name.
    InvalidPageName(String),
    /// Invalid source path.
    InvalidPageSourcePath(String),
    /// Invalid journal day.
    InvalidJournalDay(String),
    /// Page is not of the expected type.
    InvalidPageType(String),
    /// Invalid timezone name.
    InvalidTimezone(String),
    /// Invalid configuration value.
    InvalidConfiguration(String),
    /// A property failed type, cardinality or closed-set validation.
    PropertyValidationError { property: String, error: String },
    /// The property is read-only.
    PropertyReadOnly(String),
    /// Moving a block under its own descendant.
    CircularReference(Uuid),
    /// Cannot delete a block with children.
    BlockHasChildren,
    /// A patch value differs from the existing value under `RejectOnConflict`.
    MergeConflict { key: String, existing: PropertyValue, attempted: PropertyValue },
    /// An explicit patch on an immutable property.
    ImmutableProperty(String),
    /// A patch on `content`, `text` or `children`.
    ForbiddenPatchKey(String),
    /// No preset has this id.
    UnknownPreset(PresetId),
    /// A required preset argument was not given.
    MissingPresetArg { preset: PresetId, kind: PresetArgKind },
    /// Malformed preset id.
    InvalidPresetId(String),
    /// Two preset arguments of the same kind.
    DuplicatePresetArgKind(PresetArgKind),
    /// Entity already exists.
    AlreadyExists(String),
    /// Entity not found.
    NotFound(String),
    /// Invalid or corrupt data.
    InvalidData(String),
    /// A string could not be parsed into a domain type.
    ParseError(String),
    /// Storage failure.
    Storage(String),
    /// Database failure.
    Database(String),
    /// Feature not implemented.
    NotImplemented(&'static str),
    /// A domain invariant does not hold.
    InvariantViolation(&'static str),
    /// A block lacks a property its classes require.
    MissingRequiredProperty { property_id: Uuid },
    /// An inheritance link would create a cycle.
    CircularInheritance { class_id: Uuid, message: String },
}

/// The message of a domain error (what `Display` prints).
pub open spec fn domain_error_message(e: DomainError) -> Seq<char> {
    match e {
        DomainError::BlockNotFound(id) => "Block not found: "@ + hyphenated(id.value),
        DomainError::PageNotFound(id) => "Page not found: "@ + hyphenated(id.value),
        DomainError::FileNotFound(id) => "File not found: "@ + hyphenated(id.value),
        DomainError::InvalidPageName(s) => "Invalid page name: "@ + s@,
        DomainError::InvalidPageSourcePath(s) => "Invalid source path: "@ + s@,
        DomainError::InvalidJournalDay(s) => "Invalid journal day: "@ + s@,
        DomainError::InvalidPageType(s) => "Invalid page type: "@ + s@,
        DomainError::InvalidTimezone(s) => "Invalid timezone: "@ + s@,
        DomainError::InvalidConfiguration(s) => "Invalid configuration: "@ + s@,
        DomainError::PropertyValidationError { property, error } =>
            "Property validation failed for '"@ + property@ + "': "@ + error@,
        DomainError::PropertyReadOnly(s) => "Property is read-only: "@ + s@,
        DomainError::CircularReference(id) => "Circular reference detected for block: "@
            + hyphenated(id.value),
        DomainError::BlockHasChildren => "Cannot delete block with children"@,
        DomainError::MergeConflict { key, .. } => "Merge conflict on property '"@ + key@ + "'"@,
        DomainError::ImmutableProperty(s) => "Property is immutable: "@ + s@,
        DomainError::ForbiddenPatchKey(s) => "Forbidden patch key: "@ + s@,
        DomainError::UnknownPreset(p) => "unknown preset: /"@ + p@,
        DomainError::MissingPresetArg { preset, kind } => "preset /"@ + preset@ + " requires a "@
            + kind.label() + " argument"@,
        DomainError::InvalidPresetId(s) => "invalid preset id: "@ + s@,
        DomainError::DuplicatePresetArgKind(kind) => "duplicate preset arg kind: "@
            + kind.label(),
        DomainError::AlreadyExists(s) => s@ + " already exists"@,
        DomainError::NotFound(s) => "Not found: "@ + s@,
        DomainError::InvalidData(s) => "Invalid data: "@ + s@,
        DomainError::ParseError(s) => "Parse error: "@ + s@,
        DomainError::Storage(s) => "Storage error: "@ + s@,
        DomainError::Database(s) => "Database error: "@ + s@,
        DomainError::NotImplemented(s) => "Not implemented: "@ + s@,
        DomainError::InvariantViolation(s) => "Invariant violation: "@ + s@,
        DomainError::MissingRequiredProperty { property_id } => "Missing required property: "@
            + hyphenated(property_id.value),
        DomainError::CircularInheritance { class_id, message } =>
            "Circular inheritance for class "@ + hyphenated(class_id.value) + ": "@ + message@,
    }
}

fn prefixed_id(prefix: &str, id: &Uuid) -> (res: String)
    ensures
        res@ == prefix@ + hyphenated(id.value),
{
    let t = id.to_string();
    concat2(prefix, t.as_str())
}

impl DomainError {
    /// The error's message (what `Display` prints).
    pub fn to_display_string(&self) -> (res: String)
        ensures
            res@ == domain_error_message(*self),
    {
        match self {
            DomainError::BlockNotFound(id) => prefixed_id("Block not found: ", id),
            DomainError::PageNotFound(id) => prefixed_id("Page not found: ", id),
            DomainError::FileNotFound(id) => prefixed_id("File not found: ", id),
            DomainError::InvalidPageName(s) => concat2("Invalid page name: ", s.as_str()),
            DomainError::InvalidPageSourcePath(s) => concat2("Invalid source path: ", s.as_str()),
            DomainError::InvalidJournalDay(s) => concat2("Invalid journal day: ", s.as_str()),
            DomainError::InvalidPageType(s) => concat2("Invalid page type: ", s.as_str()),
            DomainError::InvalidTimezone(s) => concat2("Invalid timezone: ", s.as_str()),
            DomainError::InvalidConfiguration(s) => concat2(
                "Invalid configuration: ",
                s.as_str(),
            ),
            DomainError::PropertyValidationError { property, error } => {
                let a = concat3("Property validation failed for '", property.as_str(), "': ");
                concat2(a.as_str(), error.as_str())
            },
            DomainError::PropertyReadOnly(s) => concat2("Property is read-only: ", s.as_str()),
            DomainError::CircularReference(id) => prefixed_id(
                "Circular reference detected for block: ",
                id,
            ),
            DomainError::BlockHasChildren => "Cannot delete block with children".to_owned(),
            DomainError::MergeConflict { key, .. } => concat3(
                "Merge conflict on property '",
                key.as_str(),
                "'",
            ),
            DomainError::ImmutableProperty(s) => concat2("Property is immutable: ", s.as_str()),
            DomainError::ForbiddenPatchKey(s) => concat2("Forbidden patch key: ", s.as_str()),
            DomainError::UnknownPreset(p) => concat2("unknown preset: /", p.as_str()),
            DomainError::MissingPresetArg { preset, kind } => {
                let a = concat3("preset /", preset.as_str(), " requires a ");
                concat3(a.as_str(), kind.label_str(), " argument")
            },
            DomainError::InvalidPresetId(s) => concat2("invalid preset id: ", s.as_str()),
            DomainError::DuplicatePresetArgKind(kind) => concat2(
                "duplicate preset arg kind: ",
                kind.label_str(),
            ),
            DomainError::AlreadyExists(s) => concat2(s.as_str(), " already exists"),
            DomainError::NotFound(s) => concat2("Not found: ", s.as_str()),
            DomainError::InvalidData(s) => concat2("Invalid data: ", s.as_str()),
            DomainError::ParseError(s) => concat2("Parse error: ", s.as_str()),
            DomainError::Storage(s) => concat2("Storage error: ", s.as_str()),
            DomainError::Database(s) => concat2("Database error: ", s.as_str()),
            DomainError::NotImplemented(s) => concat2("Not implemented: ", s),
            DomainError::InvariantViolation(s) => concat2("Invariant violation: ", s),
            DomainError::MissingRequiredProperty { property_id } => prefixed_id(
                "Missing required property: ",
                property_id,
            ),
            DomainError::CircularInheritance { class_id, message } => {
                let a = prefixed_id("Circular inheritance for class ", class_id);
                concat3(a.as_str(), ": ", message.as_str())
            },
        }
    }
}

} // verus!
