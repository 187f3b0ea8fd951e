use quilt_domain::canonicalization::presets::{PresetArgKind, PresetId};
use quilt_domain::errors::domain_error::DomainError;
use quilt_domain::value_objects::{PropertyValue, Uuid};

// ── Display for each variant ──────────────────────────────────

#[test]
fn test_display_block_not_found() {
    let id = Uuid::new_v4();
    let err = DomainError::BlockNotFound(id);
    let msg = err.to_display_string();
    assert!(msg.contains("Block not found"));
    assert!(msg.contains(&id.to_string()));
}

#[test]
fn test_display_page_not_found() {
    let id = Uuid::new_v4();
    let err = DomainError::PageNotFound(id);
    let msg = err.to_display_string();
    assert!(msg.contains("Page not found"));
    assert!(msg.contains(&id.to_string()));
}

#[test]
fn test_display_file_not_found() {
    let id = Uuid::new_v4();
    let err = DomainError::FileNotFound(id);
    let msg = err.to_display_string();
    assert!(msg.contains("File not found"));
}

#[test]
fn test_display_invalid_page_name() {
    let err = DomainError::InvalidPageName("bad//name".into());
    assert_eq!(err.to_display_string(), "Invalid page name: bad//name");
}

#[test]
fn test_display_invalid_journal_day() {
    let err = DomainError::InvalidJournalDay("2026-13-01".into());
    assert_eq!(err.to_display_string(), "Invalid journal day: 2026-13-01");
}

#[test]
fn test_display_invalid_page_type() {
    let err = DomainError::InvalidPageType("not a journal".into());
    assert_eq!(err.to_display_string(), "Invalid page type: not a journal");
}

#[test]
fn test_display_invalid_timezone() {
    let err = DomainError::InvalidTimezone("Mars/Zone".into());
    assert_eq!(err.to_display_string(), "Invalid timezone: Mars/Zone");
}

#[test]
fn test_display_invalid_configuration() {
    let err = DomainError::InvalidConfiguration("missing port".into());
    assert_eq!(err.to_display_string(), "Invalid configuration: missing port");
}

#[test]
fn test_display_circular_reference() {
    let id = Uuid::new_v4();
    let err = DomainError::CircularReference(id);
    let msg = err.to_display_string();
    assert!(msg.contains("Circular reference"));
}

#[test]
fn test_display_block_has_children() {
    let err = DomainError::BlockHasChildren;
    assert_eq!(err.to_display_string(), "Cannot delete block with children");
}

#[test]
fn test_display_already_exists() {
    let err = DomainError::AlreadyExists("Page 'foo'".into());
    assert_eq!(err.to_display_string(), "Page 'foo' already exists");
}

#[test]
fn test_display_not_found() {
    let err = DomainError::NotFound("User settings".into());
    assert_eq!(err.to_display_string(), "Not found: User settings");
}

#[test]
fn test_display_invalid_data() {
    let err = DomainError::InvalidData("corrupt JSON".into());
    assert_eq!(err.to_display_string(), "Invalid data: corrupt JSON");
}

#[test]
fn test_display_storage() {
    let err = DomainError::Storage("disk full".into());
    assert_eq!(err.to_display_string(), "Storage error: disk full");
}

#[test]
fn test_display_not_implemented() {
    let err = DomainError::NotImplemented("export PDF");
    assert_eq!(err.to_display_string(), "Not implemented: export PDF");
}

// ── Debug output ─────────────────────────────────────────────

#[test]
fn test_debug_contains_variant_name() {
    let err = DomainError::BlockHasChildren;
    let debug = format!("{:?}", err);
    assert!(debug.contains("BlockHasChildren"));
}

// ── InvariantViolation ────────────────────────────────────────

#[test]
fn test_display_invariant_violation() {
    let err = DomainError::InvariantViolation("derived property must be immutable");
    let msg = err.to_display_string();
    assert!(msg.contains("Invariant violation: derived property must be immutable"));
}

#[test]
fn test_debug_contains_invariant_violation_name() {
    let err = DomainError::InvariantViolation("test");
    let debug = format!("{:?}", err);
    assert!(debug.contains("InvariantViolation"));
}

// ── MergeConflict ──────────────────────────────────────────────

#[test]
fn test_display_merge_conflict() {
    let err = DomainError::MergeConflict {
        key: "status".into(),
        existing: PropertyValue::string("done"),
        attempted: PropertyValue::string("todo"),
    };
    let msg = err.to_display_string();
    assert!(msg.contains("Merge conflict"));
    assert!(msg.contains("status"));
}

#[test]
fn test_merge_conflict_equality() {
    let err1 = DomainError::MergeConflict {
        key: "status".into(),
        existing: PropertyValue::string("done"),
        attempted: PropertyValue::string("todo"),
    };
    let err2 = DomainError::MergeConflict {
        key: "status".into(),
        existing: PropertyValue::string("done"),
        attempted: PropertyValue::string("todo"),
    };
    assert_eq!(err1, err2);
}

#[test]
fn test_debug_contains_merge_conflict_name() {
    let err = DomainError::MergeConflict {
        key: "status".into(),
        existing: PropertyValue::string("done"),
        attempted: PropertyValue::string("todo"),
    };
    let debug = format!("{:?}", err);
    assert!(debug.contains("MergeConflict"));
}

// ── ImmutableProperty ──────────────────────────────────────────

#[test]
fn test_display_immutable_property() {
    let err = DomainError::ImmutableProperty("heading-level".into());
    let msg = err.to_display_string();
    assert_eq!(msg, "Property is immutable: heading-level");
}

#[test]
fn test_debug_contains_immutable_property_name() {
    let err = DomainError::ImmutableProperty("heading-level".into());
    let debug = format!("{:?}", err);
    assert!(debug.contains("ImmutableProperty"));
}

// ── ForbiddenPatchKey ─────────────────────────────────────────

#[test]
fn test_display_forbidden_patch_key() {
    let err = DomainError::ForbiddenPatchKey("content".into());
    let msg = err.to_display_string();
    assert_eq!(msg, "Forbidden patch key: content");
}

#[test]
fn test_debug_contains_forbidden_patch_key_name() {
    let err = DomainError::ForbiddenPatchKey("content".into());
    let debug = format!("{:?}", err);
    assert!(debug.contains("ForbiddenPatchKey"));
}

// ── UnknownPreset ─────────────────────────────────────────────

#[test]
fn test_display_unknown_preset() {
    let id = PresetId::new("/TODO").unwrap();
    let err = DomainError::UnknownPreset(id);
    let msg = err.to_display_string();
    assert_eq!(msg, "unknown preset: /TODO");
}

#[test]
fn test_debug_contains_unknown_preset() {
    let id = PresetId::new("/Video").unwrap();
    let err = DomainError::UnknownPreset(id);
    let debug = format!("{:?}", err);
    assert!(debug.contains("UnknownPreset"));
}

// ── MissingPresetArg ──────────────────────────────────────────

#[test]
fn test_display_missing_preset_arg() {
    let preset = PresetId::new("/Scheduled").unwrap();
    let err = DomainError::MissingPresetArg { preset, kind: PresetArgKind::Date };
    let msg = err.to_display_string();
    assert!(msg.contains("/Scheduled"));
    assert!(msg.contains("Date"));
}

#[test]
fn test_debug_contains_missing_preset_arg() {
    let preset = PresetId::new("/Deadline").unwrap();
    let err = DomainError::MissingPresetArg { preset, kind: PresetArgKind::Url };
    let debug = format!("{:?}", err);
    assert!(debug.contains("MissingPresetArg"));
}

// ── InvalidPresetId ──────────────────────────────────────────

#[test]
fn test_display_invalid_preset_id() {
    let err = DomainError::InvalidPresetId("TODO".into());
    let msg = err.to_display_string();
    assert_eq!(msg, "invalid preset id: TODO");
}

#[test]
fn test_debug_contains_invalid_preset_id() {
    let err = DomainError::InvalidPresetId("TO DO".into());
    let debug = format!("{:?}", err);
    assert!(debug.contains("InvalidPresetId"));
}

// ── DuplicatePresetArgKind ────────────────────────────────────

#[test]
fn test_display_duplicate_preset_arg_kind() {
    let err = DomainError::DuplicatePresetArgKind(PresetArgKind::Text);
    let msg = err.to_display_string();
    assert_eq!(msg, "duplicate preset arg kind: Text");
}

#[test]
fn test_debug_contains_duplicate_preset_arg_kind() {
    let err = DomainError::DuplicatePresetArgKind(PresetArgKind::Date);
    let debug = format!("{:?}", err);
    assert!(debug.contains("DuplicatePresetArgKind"));
}

// ── Messages of the remaining variants ───────────────────────

#[test]
fn display_of_the_remaining_variants() {
    let id = Uuid::from_u128(0x550e8400_e29b_41d4_a716_446655440000);
    assert_eq!(
        DomainError::BlockNotFound(id).to_display_string(),
        "Block not found: 550e8400-e29b-41d4-a716-446655440000"
    );
    assert_eq!(
        DomainError::InvalidPageSourcePath("x.md".into()).to_display_string(),
        "Invalid source path: x.md"
    );
    assert_eq!(
        DomainError::PropertyValidationError { property: "status".into(), error: "bad".into() }
            .to_display_string(),
        "Property validation failed for 'status': bad"
    );
    assert_eq!(DomainError::PropertyReadOnly("id".into()).to_display_string(), "Property is read-only: id");
    assert_eq!(DomainError::ParseError("x".into()).to_display_string(), "Parse error: x");
    assert_eq!(DomainError::Database("x".into()).to_display_string(), "Database error: x");
    assert_eq!(
        DomainError::MissingRequiredProperty { property_id: id }.to_display_string(),
        "Missing required property: 550e8400-e29b-41d4-a716-446655440000"
    );
}
