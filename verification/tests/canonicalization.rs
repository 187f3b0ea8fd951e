use quilt_domain::canonicalization::canonicalizer::{Canonicalizer, PropertyDefinitionRegistry};
use quilt_domain::canonicalization::presets::{
    CalendarDate, PresetArg, PresetArgError, PresetArgKind, PresetArgs, PresetId, PropertyPreset,
};
use quilt_domain::canonicalization::registry::{InMemoryPresetRegistry, PresetRegistry};
use quilt_domain::canonicalization::value_objects::{
    CanonicalInput, CanonicalizationResult, PatchOutcome, PropertyPatch, PropertyPatchProvenance,
    SourceKind,
};
use quilt_domain::content::BlockContent;
use quilt_domain::entities::block::{Block, BlockCreate};
use quilt_domain::entities::template_contract::PropertyKey;
use quilt_domain::errors::domain_error::DomainError;
use quilt_domain::properties::definition::PropertyDefinition;
use quilt_domain::properties::types::{
    Cardinality, MergePolicy, PropertyMutability, PropertyStatus, PropertyType, PropertyVisibility,
};
use quilt_domain::str_map::StrMap;
use quilt_domain::value_objects::{BlockFormat, BlockType, PropertyValue, Uuid};

fn make_key(s: &str) -> PropertyKey {
    PropertyKey::new(s).expect("valid key")
}

fn explicit_patch(key: &str, value: &str) -> PropertyPatch {
    PropertyPatch {
        key: make_key(key),
        value: PropertyValue::text(value),
        provenance: PropertyPatchProvenance::Explicit,
    }
}

fn make_empty_block() -> Block {
    Block::new(BlockCreate {
        page_id: Uuid::new_v4(),
        content: String::new(),
        parent_id: None,
        order: 0,
        marker: None,
        format: BlockFormat::Markdown,
        block_type: BlockType::Paragraph,
        properties: StrMap::new(),
    })
    .expect("creates block")
}

fn make_def(db_ident: &str, merge_policy: MergePolicy, mutability: PropertyMutability) -> PropertyDefinition {
    PropertyDefinition {
        id: Uuid::new_v4(),
        db_ident: db_ident.to_string(),
        title: db_ident.to_string(),
        property_type: PropertyType::Text,
        cardinality: Cardinality::One,
        closed_values: Vec::new(),
        attribute: None,
        status: PropertyStatus::Active,
        derived_from: None,
        visibility: PropertyVisibility::default(),
        mutability,
        merge_policy,
        alias_of: None,
        block_count: 0,
        page_count: 0,
        first_seen_at: None,
        last_seen_at: None,
    }
}

fn build_registry(defs: &[PropertyDefinition]) -> PropertyDefinitionRegistry {
    PropertyDefinitionRegistry::from_definitions(defs.to_vec())
}

// ── PresetId ─────────────────────────────────────────────────────

#[test]
fn preset_id_valid_slash_command() {
    let id = PresetId::new("/TODO").unwrap();
    assert_eq!(id.as_str(), "TODO");
    assert_eq!(id.to_display_string(), "/TODO");
}

#[test]
fn preset_id_case_sensitive() {
    let todo = PresetId::new("/TODO").unwrap();
    let lower = PresetId::new("/todo").unwrap();
    assert_ne!(todo, lower);
}

#[test]
fn preset_id_rejects_empty() {
    let r = PresetId::new("");
    assert!(r.is_err());
    if let Err(DomainError::InvalidPresetId(s)) = r {
        assert_eq!(s, "");
    } else {
        panic!("expected InvalidPresetId, got {r:?}");
    }
}

#[test]
fn preset_id_rejects_only_slash() {
    let r = PresetId::new("/");
    assert!(r.is_err());
    if let Err(DomainError::InvalidPresetId(s)) = r {
        assert_eq!(s, "/");
    } else {
        panic!("expected InvalidPresetId, got {r:?}");
    }
}

#[test]
fn preset_id_rejects_missing_leading_slash() {
    let r = PresetId::new("TODO");
    assert!(r.is_err());
    assert!(matches!(r, Err(DomainError::InvalidPresetId(_))));
}

#[test]
fn preset_id_rejects_internal_whitespace() {
    let r = PresetId::new("/TO DO");
    assert!(r.is_err());
    assert!(matches!(r, Err(DomainError::InvalidPresetId(_))));
}

#[test]
fn preset_id_rejects_second_slash() {
    let r = PresetId::new("/foo/bar");
    assert!(r.is_err());
    assert!(matches!(r, Err(DomainError::InvalidPresetId(_))));
}

#[test]
fn preset_id_as_ref_str() {
    let id = PresetId::new("/Video").unwrap();
    assert_eq!(<PresetId as AsRef<str>>::as_ref(&id), "Video");
}

#[test]
fn preset_id_display() {
    let id = PresetId::new("/Deadline").unwrap();
    assert_eq!(id.to_display_string(), "/Deadline");
}

// ── PresetArgs ───────────────────────────────────────────────────

fn date(y: i32, m: u32, d: u32) -> PresetArg {
    PresetArg::Date(CalendarDate::from_ymd(y, m, d).unwrap())
}

#[test]
fn preset_args_empty() {
    let args = PresetArgs::empty();
    assert!(args.is_empty());
    assert_eq!(args.len(), 0);
}

#[test]
fn preset_args_from_vec_ok() {
    let args = PresetArgs::from_vec(vec![date(2026, 6, 15), PresetArg::Text("note".into())]).unwrap();
    assert!(!args.is_empty());
    assert_eq!(args.len(), 2);
}

#[test]
fn preset_args_rejects_duplicate_kind() {
    let args = PresetArgs::from_vec(vec![PresetArg::Text("first".into()), PresetArg::Text("second".into())]);
    assert!(matches!(args, Err(DomainError::DuplicatePresetArgKind(PresetArgKind::Text))));
}

#[test]
fn preset_args_get_returns_first_match() {
    let args = PresetArgs::from_vec(vec![
        date(2026, 6, 15),
        PresetArg::Text("note".into()),
        PresetArg::url("https://example.com").unwrap(),
    ])
    .unwrap();
    let date = args.get(PresetArgKind::Date);
    assert!(date.is_some());
    let date = date.unwrap();
    match date {
        PresetArg::Date(d) => assert_eq!(d.to_display_string(), "2026-06-15"),
        _ => panic!("expected Date"),
    }
}

#[test]
fn preset_args_get_missing() {
    let args = PresetArgs::from_vec(vec![date(2026, 6, 15)]).unwrap();
    assert!(args.get(PresetArgKind::Url).is_none());
}

#[test]
fn preset_args_iter() {
    let args = PresetArgs::from_vec(vec![date(2026, 6, 15), PresetArg::Text("a".into())]).unwrap();
    let kinds: Vec<_> = (0..args.len())
        .map(|i| match args.at(i) {
            PresetArg::Date(_) => "date",
            PresetArg::Text(_) => "text",
            PresetArg::Url(_) => "url",
        })
        .collect();
    assert_eq!(kinds, vec!["date", "text"]);
}

#[test]
fn preset_args_into_iter() {
    let args = PresetArgs::from_vec(vec![PresetArg::Text("x".into())]).unwrap();
    let count = args.into_vec().into_iter().count();
    assert_eq!(count, 1);
}

#[test]
fn preset_args_default_is_empty() {
    let args = PresetArgs::default();
    assert!(args.is_empty());
}

#[test]
fn preset_arg_parsing() {
    assert_eq!(PresetArg::from_tagged("date", "2026-12-25"), Ok(date(2026, 12, 25)));
    assert_eq!(PresetArg::from_tagged("date", "2026-02-30"), Err(PresetArgError::InvalidDate));
    assert_eq!(PresetArg::from_tagged("text", "hello world"), Ok(PresetArg::Text("hello world".into())));
    assert!(matches!(PresetArg::from_tagged("url", "not a url"), Err(_)));
    let u = PresetArg::from_tagged("url", "https://example.com/video.mp4").unwrap();
    assert_eq!(u.kind(), PresetArgKind::Url);
    assert_eq!(u.to_display_string(), "https://example.com/video.mp4");
    assert_eq!(date(2026, 12, 25).to_display_string(), "2026-12-25");
    assert!(CalendarDate::from_ymd(2024, 2, 29).is_some());
    assert!(CalendarDate::from_ymd(2023, 2, 29).is_none());
}

// ── PropertyPreset ───────────────────────────────────────────────

#[test]
fn property_preset_new_ok() {
    let preset = PropertyPreset::new(
        PresetId::new("/TODO").unwrap(),
        vec![explicit_patch("type", "task")],
        PresetArgs::empty(),
        "A test preset",
    )
    .unwrap();
    assert_eq!(preset.id.as_str(), "TODO");
    assert_eq!(preset.description, "A test preset");
    assert_eq!(preset.patches.len(), 1);
}

#[test]
fn property_preset_rejects_forbidden_key_content() {
    let result = PropertyPreset::new(
        PresetId::new("/Bad").unwrap(),
        vec![explicit_patch("content", "nope")],
        PresetArgs::empty(),
        "bad",
    );
    assert!(matches!(result, Err(DomainError::ForbiddenPatchKey(k)) if k == "content"));
}

#[test]
fn property_preset_rejects_forbidden_key_text() {
    let result = PropertyPreset::new(
        PresetId::new("/Bad").unwrap(),
        vec![explicit_patch("text", "nope")],
        PresetArgs::empty(),
        "bad",
    );
    assert!(matches!(result, Err(DomainError::ForbiddenPatchKey(k)) if k == "text"));
}

#[test]
fn property_preset_rejects_forbidden_key_children() {
    let result = PropertyPreset::new(
        PresetId::new("/Bad").unwrap(),
        vec![explicit_patch("children", "nope")],
        PresetArgs::empty(),
        "bad",
    );
    assert!(matches!(result, Err(DomainError::ForbiddenPatchKey(k)) if k == "children"));
}

#[test]
fn property_preset_with_description() {
    let preset = PropertyPreset::new(
        PresetId::new("/TODO").unwrap(),
        vec![explicit_patch("type", "task")],
        PresetArgs::empty(),
        "original",
    )
    .unwrap()
    .with_description("updated");
    assert_eq!(preset.description, "updated");
}

#[test]
fn preset_patch_has_explicit_provenance() {
    let patch = explicit_patch("status", "todo");
    assert_eq!(patch.provenance, PropertyPatchProvenance::Explicit);
}

// ── value objects ────────────────────────────────────────────────

#[test]
fn canonical_input_from_text_defaults_to_markdown_no_context() {
    let input = CanonicalInput::from_text("hello world");
    assert_eq!(input.text, "hello world");
    assert_eq!(input.source_kind, SourceKind::Markdown);
    assert!(input.context_page.is_none());
}

#[test]
fn canonical_input_with_context_page_sets_and_preserves_fields() {
    let input = CanonicalInput::from_text("some text").with_context_page("My Page");
    assert_eq!(input.text, "some text");
    assert_eq!(input.context_page, Some("My Page".into()));
    assert_eq!(input.source_kind, SourceKind::Markdown);
}

#[test]
fn canonical_input_from_text_accepts_str_and_string() {
    let from_str = CanonicalInput::from_text("hello");
    let from_string = CanonicalInput::from_text(String::from("hello").as_str());
    assert_eq!(from_str, from_string);
}

#[test]
fn canonical_input_from_text_preserves_multi_line_unicode_whitespace() {
    let input = CanonicalInput::from_text("line1\nline2\twith\ttabs\n\nleading");
    let content = BlockContent::from_text(&input.text);
    assert!(!content.segments.is_empty());
}

#[test]
fn property_patch_derived_sets_provenance() {
    let patch = PropertyPatch::derived(make_key("heading-level"), PropertyValue::text("1"));
    assert_eq!(patch.provenance, PropertyPatchProvenance::Derived);
    assert_eq!(patch.key.as_str(), "heading-level");
}

#[test]
fn property_patch_explicit_sets_provenance() {
    let patch = PropertyPatch::explicit(make_key("status"), PropertyValue::text("todo"));
    assert_eq!(patch.provenance, PropertyPatchProvenance::Explicit);
}

#[test]
fn property_patch_struct_preserves_all_three_fields() {
    let key = make_key("type");
    let value = PropertyValue::text("task");
    let patch = PropertyPatch { key: key.clone(), value: value.clone(), provenance: PropertyPatchProvenance::Derived };
    assert_eq!(patch.key, key);
    assert_eq!(patch.value, value);
    assert_eq!(patch.provenance, PropertyPatchProvenance::Derived);
}

#[test]
fn patch_outcome_unchanged_has_empty_vectors() {
    let block = make_empty_block();
    let outcome = PatchOutcome::unchanged(block.clone());
    assert!(outcome.conflicts.is_empty());
    assert!(outcome.derived_materialized.is_empty());
    assert!(outcome.skipped.is_empty());
}

#[test]
fn patch_outcome_equality_independent_of_constructors() {
    let block = make_empty_block();
    let a = PatchOutcome::unchanged(block.clone());
    let b = PatchOutcome::unchanged(block);
    assert_eq!(a, b);
}

#[test]
fn canonicalization_result_empty_has_no_patches() {
    let content = BlockContent::from_text("hello");
    let result = CanonicalizationResult::empty(content.clone());
    assert_eq!(result.content, content);
    assert!(result.derived.is_empty());
    assert!(result.applied.is_empty());
}

#[test]
fn canonicalization_result_empty_and_content_only_are_equal() {
    let content = BlockContent::from_text("hello");
    let empty = CanonicalizationResult::empty(content.clone());
    let content_only = CanonicalizationResult::content_only(content);
    assert_eq!(empty.content, content_only.content);
    assert_eq!(empty.derived, content_only.derived);
    assert_eq!(empty.applied, content_only.applied);
}

// ── Canonicalizer and registries ─────────────────────────────────

#[test]
fn registry_from_iter_stores_by_db_ident() {
    let defs = vec![
        make_def("heading-level", MergePolicy::SetIfMissing, PropertyMutability::Mutable),
        make_def("block-role", MergePolicy::SetIfMissing, PropertyMutability::Mutable),
        make_def("type", MergePolicy::SetIfMissing, PropertyMutability::Mutable),
    ];
    let reg = PropertyDefinitionRegistry::from_definitions(defs);
    assert_eq!(reg.len(), 3);
    let found = reg.get("heading-level").expect("found");
    assert_eq!(found.db_ident, "heading-level");
}

#[test]
fn registry_get_missing_key_returns_none() {
    let reg = PropertyDefinitionRegistry::from_definitions(Vec::new());
    assert!(reg.get("nonexistent").is_none());
    assert!(reg.is_empty());
}

#[test]
fn registry_arc_lookup_cheap() {
    let def = make_def("heading-level", MergePolicy::SetIfMissing, PropertyMutability::Mutable);
    let reg = PropertyDefinitionRegistry::from_definitions(vec![def]);
    for _ in 0..1000 {
        let _ = reg.get("heading-level");
    }
}

struct DummyCanonicalizer;

impl Canonicalizer for DummyCanonicalizer {
    fn canonicalize(&self, _input: CanonicalInput) -> CanonicalizationResult {
        CanonicalizationResult::empty(BlockContent::empty())
    }
}

#[test]
fn canonicalizer_trait_is_object_safe() {
    let _: Box<dyn Canonicalizer> = Box::new(DummyCanonicalizer);
}

fn make_preset(id: &str) -> PropertyPreset {
    PropertyPreset::new(PresetId::new(id).unwrap(), vec![explicit_patch("type", "task")], PresetArgs::empty(), "test")
        .unwrap()
}

#[test]
fn dyn_trait_accepts_test_registry() {
    let reg: Box<dyn PresetRegistry> = Box::new(InMemoryPresetRegistry::new().insert(make_preset("/TODO")));
    assert_eq!(reg.len(), 1);
    let got = reg.get(&PresetId::new("/TODO").unwrap());
    assert!(got.is_some());
}

#[test]
fn list_returns_ids() {
    let reg = InMemoryPresetRegistry::new().insert(make_preset("/A")).insert(make_preset("/B"));
    let ids = reg.list();
    assert_eq!(ids.len(), 2);
}

#[test]
fn len_matches_count() {
    let reg = InMemoryPresetRegistry::new().insert(make_preset("/A")).insert(make_preset("/B")).insert(make_preset("/C"));
    assert_eq!(reg.len(), 3);
    assert!(!reg.is_empty());
}

#[test]
fn unknown_id_returns_none() {
    let reg = InMemoryPresetRegistry::new().insert(make_preset("/TODO"));
    let got = reg.get(&PresetId::new("/NotAPreset").unwrap());
    assert!(got.is_none());
}

#[test]
fn empty_registry_is_empty() {
    let reg = InMemoryPresetRegistry::new();
    assert!(reg.is_empty());
    assert_eq!(reg.len(), 0);
    assert!(reg.list().is_empty());
}

// ── apply_to: forbidden keys ─────────────────────────────────────

#[test]
fn apply_to_rejects_content_key() {
    let patch = PropertyPatch::explicit(make_key("content"), PropertyValue::text("nope"));
    let mut block = make_empty_block();
    let defs = build_registry(&[]);
    let result = patch.apply_to(&mut block, &defs);
    assert!(matches!(result, Err(DomainError::ForbiddenPatchKey(k)) if k == "content"));
    assert!(block.properties.is_empty());
}

#[test]
fn apply_to_rejects_text_key() {
    let patch = PropertyPatch::explicit(make_key("text"), PropertyValue::text("nope"));
    let mut block = make_empty_block();
    let defs = build_registry(&[]);
    let result = patch.apply_to(&mut block, &defs);
    assert!(matches!(result, Err(DomainError::ForbiddenPatchKey(k)) if k == "text"));
    assert!(block.properties.is_empty());
}

#[test]
fn apply_to_rejects_children_key() {
    let patch = PropertyPatch::explicit(make_key("children"), PropertyValue::text("nope"));
    let mut block = make_empty_block();
    let defs = build_registry(&[]);
    let result = patch.apply_to(&mut block, &defs);
    assert!(matches!(result, Err(DomainError::ForbiddenPatchKey(k)) if k == "children"));
    assert!(block.properties.is_empty());
}

#[test]
fn apply_to_skips_unknown_key() {
    let patch = PropertyPatch::explicit(make_key("unknown-prop"), PropertyValue::text("val"));
    let mut block = make_empty_block();
    let defs = build_registry(&[]);
    let result = patch.apply_to(&mut block, &defs).expect("no error");
    assert!(result.skipped.iter().any(|k| k.as_str() == "unknown-prop"));
    assert!(block.properties.is_empty());
}

#[test]
fn apply_to_rejects_explicit_patch_to_immutable_property() {
    let def = make_def("heading-level", MergePolicy::SetIfMissing, PropertyMutability::Immutable);
    let patch = PropertyPatch::explicit(make_key("heading-level"), PropertyValue::text("1"));
    let mut block = make_empty_block();
    let defs = build_registry(&[def]);
    let result = patch.apply_to(&mut block, &defs);
    assert!(matches!(result, Err(DomainError::ImmutableProperty(k)) if k == "heading-level"));
    assert!(block.properties.is_empty());
}

#[test]
fn apply_to_block_content_is_preserved_on_error() {
    let def = make_def("heading-level", MergePolicy::SetIfMissing, PropertyMutability::Immutable);
    let patch = PropertyPatch::explicit(make_key("heading-level"), PropertyValue::text("1"));
    let mut block = make_empty_block();
    block.content = "original content".to_string();
    let original_content = block.content.clone();
    let _ = patch.apply_to(&mut block, &build_registry(&[def]));
    assert_eq!(block.content, original_content);
    assert!(block.properties.is_empty());
}

// ── SetIfMissing ─────────────────────────────────────────────────

#[test]
fn apply_set_if_missing_writes_when_no_value() {
    let def = make_def("status", MergePolicy::SetIfMissing, PropertyMutability::Mutable);
    let patch = PropertyPatch::explicit(make_key("status"), PropertyValue::text("todo"));
    let mut block = make_empty_block();
    let defs = build_registry(&[def]);
    let result = patch.apply_to(&mut block, &defs).expect("ok");
    assert_eq!(block.properties.get("status"), Some(&PropertyValue::text("todo")));
    assert!(result.skipped.is_empty());
}

#[test]
fn apply_set_if_missing_skips_when_value_exists() {
    let def = make_def("status", MergePolicy::SetIfMissing, PropertyMutability::Mutable);
    let patch = PropertyPatch::explicit(make_key("status"), PropertyValue::text("todo"));
    let mut block = make_empty_block();
    block.properties.insert("status".into(), PropertyValue::text("done"));
    let defs = build_registry(&[def]);
    let result = patch.apply_to(&mut block, &defs).expect("ok");
    assert_eq!(block.properties.get("status"), Some(&PropertyValue::text("done")));
    assert!(result.skipped.iter().any(|k| k.as_str() == "status"));
}

#[test]
fn apply_set_if_missing_never_errors() {
    let def = make_def("status", MergePolicy::SetIfMissing, PropertyMutability::Mutable);
    let patch = PropertyPatch::explicit(make_key("status"), PropertyValue::text("todo"));
    let mut block = make_empty_block();
    block.properties.insert("status".into(), PropertyValue::text("done"));
    let defs = build_registry(&[def]);
    patch.apply_to(&mut block, &defs).expect("never errors");
}

// ── Overwrite ────────────────────────────────────────────────────

#[test]
fn apply_overwrite_replaces_existing() {
    let def = make_def("status", MergePolicy::Overwrite, PropertyMutability::Mutable);
    let patch = PropertyPatch::explicit(make_key("status"), PropertyValue::text("todo"));
    let mut block = make_empty_block();
    block.properties.insert("status".into(), PropertyValue::text("done"));
    let defs = build_registry(&[def]);
    let result = patch.apply_to(&mut block, &defs).expect("ok");
    assert_eq!(block.properties.get("status"), Some(&PropertyValue::text("todo")));
    assert!(result.skipped.is_empty());
}

#[test]
fn apply_outcome_carries_the_written_block() {
    let def = make_def("status", MergePolicy::Overwrite, PropertyMutability::Mutable);
    let patch = PropertyPatch::explicit(make_key("status"), PropertyValue::text("todo"));
    let mut block = make_empty_block();
    block.properties.insert("status".into(), PropertyValue::text("done"));
    let defs = build_registry(&[def]);
    let result = patch.apply_to(&mut block, &defs).expect("ok");
    assert_eq!(result.block.properties.get("status"), Some(&PropertyValue::text("todo")));
    assert_eq!(result.block, block);
}

#[test]
fn apply_overwrite_writes_when_no_value() {
    let def = make_def("status", MergePolicy::Overwrite, PropertyMutability::Mutable);
    let patch = PropertyPatch::explicit(make_key("status"), PropertyValue::text("todo"));
    let mut block = make_empty_block();
    let defs = build_registry(&[def]);
    let result = patch.apply_to(&mut block, &defs).expect("ok");
    assert_eq!(block.properties.get("status"), Some(&PropertyValue::text("todo")));
    assert!(result.skipped.is_empty());
}

#[test]
fn apply_overwrite_never_errors() {
    let def = make_def("status", MergePolicy::Overwrite, PropertyMutability::Mutable);
    let patch = PropertyPatch::explicit(make_key("status"), PropertyValue::text("todo"));
    let mut block = make_empty_block();
    let defs = build_registry(&[def]);
    patch.apply_to(&mut block, &defs).expect("never errors");
}

// ── Append ───────────────────────────────────────────────────────

#[test]
fn apply_append_extends_existing_array() {
    let def = make_def("tags", MergePolicy::Append, PropertyMutability::Mutable);
    let def = PropertyDefinition { cardinality: Cardinality::Many, ..def };
    let patch = PropertyPatch::explicit(make_key("tags"), PropertyValue::text("new-tag"));
    let mut block = make_empty_block();
    block.properties.insert("tags".into(), PropertyValue::Array(vec![PropertyValue::text("existing")]));
    let defs = build_registry(&[def]);
    let result = patch.apply_to(&mut block, &defs).expect("ok");
    let arr = match block.properties.get("tags") {
        Some(PropertyValue::Array(a)) => a,
        other => panic!("expected Array, got {:?}", other),
    };
    assert_eq!(arr.len(), 2);
    assert!(arr.contains(&PropertyValue::text("existing")));
    assert!(arr.contains(&PropertyValue::text("new-tag")));
    assert!(result.derived_materialized.is_empty());
}

#[test]
fn apply_append_seeds_new_array_when_no_value() {
    let mut def = make_def("tags", MergePolicy::Append, PropertyMutability::Mutable);
    def.cardinality = Cardinality::Many;
    let patch = PropertyPatch::explicit(make_key("tags"), PropertyValue::text("first"));
    let mut block = make_empty_block();
    let defs = build_registry(&[def]);
    let _result = patch.apply_to(&mut block, &defs).expect("ok");
    let arr = match block.properties.get("tags") {
        Some(PropertyValue::Array(a)) => a,
        other => panic!("expected Array, got {:?}", other),
    };
    assert_eq!(arr.len(), 1);
    assert!(arr.contains(&PropertyValue::text("first")));
}

#[test]
fn apply_append_acts_as_overwrite_on_scalar_cardinality_one() {
    let def = make_def("status", MergePolicy::Append, PropertyMutability::Mutable);
    let patch = PropertyPatch::explicit(make_key("status"), PropertyValue::text("todo"));
    let mut block = make_empty_block();
    block.properties.insert("status".into(), PropertyValue::text("done"));
    let defs = build_registry(&[def]);
    let _result = patch.apply_to(&mut block, &defs).expect("ok");
    assert_eq!(block.properties.get("status"), Some(&PropertyValue::text("todo")));
}

#[test]
fn apply_append_never_errors() {
    let mut def = make_def("tags", MergePolicy::Append, PropertyMutability::Mutable);
    def.cardinality = Cardinality::Many;
    let patch = PropertyPatch::explicit(make_key("tags"), PropertyValue::text("new-tag"));
    let mut block = make_empty_block();
    block.properties.insert("tags".into(), PropertyValue::text("existing"));
    let defs = build_registry(&[def]);
    patch.apply_to(&mut block, &defs).expect("never errors");
}

// ── Union ────────────────────────────────────────────────────────

#[test]
fn apply_union_merges_removing_duplicates() {
    let mut def = make_def("tags", MergePolicy::Union, PropertyMutability::Mutable);
    def.cardinality = Cardinality::Many;
    let patch = PropertyPatch::explicit(make_key("tags"), PropertyValue::text("existing"));
    let mut block = make_empty_block();
    block.properties.insert(
        "tags".into(),
        PropertyValue::Array(vec![PropertyValue::text("existing"), PropertyValue::text("other")]),
    );
    let defs = build_registry(&[def]);
    let _result = patch.apply_to(&mut block, &defs).expect("ok");
    let arr = match block.properties.get("tags") {
        Some(PropertyValue::Array(a)) => a,
        other => panic!("expected Array, got {:?}", other),
    };
    assert_eq!(arr.len(), 2);
}

#[test]
fn apply_union_extends_with_new_values() {
    let mut def = make_def("tags", MergePolicy::Union, PropertyMutability::Mutable);
    def.cardinality = Cardinality::Many;
    let patch = PropertyPatch::explicit(make_key("tags"), PropertyValue::text("new-tag"));
    let mut block = make_empty_block();
    block.properties.insert("tags".into(), PropertyValue::Array(vec![PropertyValue::text("existing")]));
    let defs = build_registry(&[def]);
    let _result = patch.apply_to(&mut block, &defs).expect("ok");
    let arr = match block.properties.get("tags") {
        Some(PropertyValue::Array(a)) => a,
        other => panic!("expected Array, got {:?}", other),
    };
    assert_eq!(arr.len(), 2);
    assert!(arr.contains(&PropertyValue::text("existing")));
    assert!(arr.contains(&PropertyValue::text("new-tag")));
}

#[test]
fn apply_union_acts_as_overwrite_on_scalar_cardinality_one() {
    let def = make_def("status", MergePolicy::Union, PropertyMutability::Mutable);
    let patch = PropertyPatch::explicit(make_key("status"), PropertyValue::text("todo"));
    let mut block = make_empty_block();
    block.properties.insert("status".into(), PropertyValue::text("done"));
    let defs = build_registry(&[def]);
    let _result = patch.apply_to(&mut block, &defs).expect("ok");
    assert_eq!(block.properties.get("status"), Some(&PropertyValue::text("todo")));
}

#[test]
fn apply_union_never_errors() {
    let mut def = make_def("tags", MergePolicy::Union, PropertyMutability::Mutable);
    def.cardinality = Cardinality::Many;
    let patch = PropertyPatch::explicit(make_key("tags"), PropertyValue::text("new-tag"));
    let mut block = make_empty_block();
    let defs = build_registry(&[def]);
    patch.apply_to(&mut block, &defs).expect("never errors");
}

// ── RejectOnConflict ─────────────────────────────────────────────

#[test]
fn apply_reject_on_conflict_rejects_when_differ() {
    let def = make_def("status", MergePolicy::RejectOnConflict, PropertyMutability::Mutable);
    let patch = PropertyPatch::explicit(make_key("status"), PropertyValue::text("todo"));
    let mut block = make_empty_block();
    block.properties.insert("status".into(), PropertyValue::text("done"));
    let defs = build_registry(&[def]);
    let result = patch.apply_to(&mut block, &defs);
    assert!(matches!(result, Err(DomainError::MergeConflict { key, .. }) if key == "status"));
    assert_eq!(block.properties.get("status"), Some(&PropertyValue::text("done")));
}

#[test]
fn apply_reject_on_conflict_accepts_when_match() {
    let def = make_def("status", MergePolicy::RejectOnConflict, PropertyMutability::Mutable);
    let patch = PropertyPatch::explicit(make_key("status"), PropertyValue::text("done"));
    let mut block = make_empty_block();
    block.properties.insert("status".into(), PropertyValue::text("done"));
    let defs = build_registry(&[def]);
    let result = patch.apply_to(&mut block, &defs).expect("ok");
    assert!(result.skipped.contains(&make_key("status")));
}

#[test]
fn apply_reject_on_conflict_writes_when_no_value() {
    let def = make_def("status", MergePolicy::RejectOnConflict, PropertyMutability::Mutable);
    let patch = PropertyPatch::explicit(make_key("status"), PropertyValue::text("todo"));
    let mut block = make_empty_block();
    let defs = build_registry(&[def]);
    let result = patch.apply_to(&mut block, &defs).expect("ok");
    assert_eq!(block.properties.get("status"), Some(&PropertyValue::text("todo")));
    assert!(result.derived_materialized.is_empty());
}

// ── AskOnConflict ────────────────────────────────────────────────

#[test]
fn apply_ask_on_conflict_defers_when_differ() {
    let def = make_def("status", MergePolicy::AskOnConflict, PropertyMutability::Mutable);
    let patch = PropertyPatch::explicit(make_key("status"), PropertyValue::text("todo"));
    let mut block = make_empty_block();
    block.properties.insert("status".into(), PropertyValue::text("done"));
    let defs = build_registry(&[def]);
    let result = patch.apply_to(&mut block, &defs).expect("ok");
    assert_eq!(result.conflicts.len(), 1);
    assert_eq!(result.conflicts[0].policy, MergePolicy::AskOnConflict);
    assert_eq!(block.properties.get("status"), Some(&PropertyValue::text("done")));
}

#[test]
fn apply_ask_on_conflict_accepts_when_match() {
    let def = make_def("status", MergePolicy::AskOnConflict, PropertyMutability::Mutable);
    let patch = PropertyPatch::explicit(make_key("status"), PropertyValue::text("done"));
    let mut block = make_empty_block();
    block.properties.insert("status".into(), PropertyValue::text("done"));
    let defs = build_registry(&[def]);
    let result = patch.apply_to(&mut block, &defs).expect("ok");
    assert!(result.conflicts.is_empty());
    assert!(result.skipped.contains(&make_key("status")));
}

#[test]
fn apply_ask_on_conflict_writes_when_no_value() {
    let def = make_def("status", MergePolicy::AskOnConflict, PropertyMutability::Mutable);
    let patch = PropertyPatch::explicit(make_key("status"), PropertyValue::text("todo"));
    let mut block = make_empty_block();
    let defs = build_registry(&[def]);
    let _result = patch.apply_to(&mut block, &defs).expect("ok");
    assert_eq!(block.properties.get("status"), Some(&PropertyValue::text("todo")));
}

// ── Derived provenance tracking ──────────────────────────────────

#[test]
fn apply_derived_materialized_only_for_derived_patches() {
    let def_immutable = make_def("heading-level", MergePolicy::SetIfMissing, PropertyMutability::Immutable);
    let explicit_patch = PropertyPatch::explicit(make_key("heading-level"), PropertyValue::text("1"));
    let mut block_explicit = make_empty_block();
    let defs_immutable = build_registry(&[def_immutable]);
    let result_explicit = explicit_patch.apply_to(&mut block_explicit, &defs_immutable);
    assert!(matches!(result_explicit, Err(DomainError::ImmutableProperty(k)) if k == "heading-level"));

    let def_mutable = make_def("heading-level", MergePolicy::SetIfMissing, PropertyMutability::Mutable);
    let derived_patch = PropertyPatch::derived(make_key("heading-level"), PropertyValue::text("2"));
    let mut block_derived = make_empty_block();
    let defs_mutable = build_registry(&[def_mutable]);
    let result_derived = derived_patch.apply_to(&mut block_derived, &defs_mutable).expect("ok");
    assert!(result_derived.derived_materialized.iter().any(|k| k.as_str() == "heading-level"));
}

#[test]
fn derived_writes_are_materialized_under_conflict_policies() {
    for policy in [MergePolicy::RejectOnConflict, MergePolicy::AskOnConflict] {
        let def = make_def("status", policy, PropertyMutability::Mutable);
        let patch = PropertyPatch::derived(make_key("status"), PropertyValue::text("todo"));
        let mut block = make_empty_block();
        let result = patch.apply_to(&mut block, &build_registry(&[def])).expect("ok");
        assert_eq!(block.properties.get("status"), Some(&PropertyValue::text("todo")));
        assert_eq!(result.derived_materialized.len(), 1);
        assert_eq!(result.derived_materialized[0].as_str(), "status");
    }
}

#[test]
fn apply_skipped_reports_set_if_missing_kept_value() {
    let def = make_def("status", MergePolicy::SetIfMissing, PropertyMutability::Mutable);
    let patch = PropertyPatch::explicit(make_key("status"), PropertyValue::text("new"));
    let mut block = make_empty_block();
    block.properties.insert("status".into(), PropertyValue::text("existing"));
    let defs = build_registry(&[def]);
    let result = patch.apply_to(&mut block, &defs).expect("ok");
    assert!(result.skipped.iter().any(|k| k.as_str() == "status"));
    assert_eq!(block.properties.get("status"), Some(&PropertyValue::text("existing")));
}

#[test]
fn per_policy_outcome_matrix() {
    let policies = [
        MergePolicy::SetIfMissing,
        MergePolicy::Overwrite,
        MergePolicy::Append,
        MergePolicy::Union,
        MergePolicy::RejectOnConflict,
        MergePolicy::AskOnConflict,
    ];

    let patch = PropertyPatch::explicit(make_key("prop"), PropertyValue::text("p"));

    for policy in policies {
        let mut def = make_def("prop", policy, PropertyMutability::Mutable);
        def.cardinality = Cardinality::One;

        {
            let mut block = make_empty_block();
            let defs = build_registry(&[def.clone()]);
            let result = patch.apply_to(&mut block, &defs);
            assert!(result.is_ok(), "policy {:?} should not error with no pre-value", policy);
            assert!(block.properties.contains_key("prop"), "policy {:?} should write with no pre-value", policy);
        }

        {
            let mut block = make_empty_block();
            block.properties.insert("prop".into(), PropertyValue::text("p"));
            let defs = build_registry(&[def.clone()]);
            let result = patch.apply_to(&mut block, &defs).unwrap();
            match policy {
                MergePolicy::SetIfMissing | MergePolicy::RejectOnConflict | MergePolicy::AskOnConflict => {
                    assert!(
                        result.skipped.iter().any(|k| k.as_str() == "prop"),
                        "policy {:?} should skip when values match",
                        policy
                    );
                }
                _ => {
                    assert!(
                        block.properties.get("prop") == Some(&PropertyValue::text("p")),
                        "policy {:?} should keep value when values match",
                        policy
                    );
                }
            }
        }

        {
            let mut block = make_empty_block();
            block.properties.insert("prop".into(), PropertyValue::text("existing"));
            let defs = build_registry(&[def.clone()]);
            let result = patch.apply_to(&mut block, &defs);
            match policy {
                MergePolicy::RejectOnConflict => {
                    assert!(matches!(result, Err(DomainError::MergeConflict { .. })), "policy {:?} should error on conflict", policy);
                }
                MergePolicy::AskOnConflict => {
                    let outcome = result.expect("ok");
                    assert!(!outcome.conflicts.is_empty(), "policy {:?} should surface conflict", policy);
                }
                _ => {
                    let outcome = result.expect("ok");
                    assert!(outcome.conflicts.is_empty(), "policy {:?} should not conflict", policy);
                }
            }
        }
    }
}

#[test]
fn registry_insert_replaces_same_id() {
    let reg = InMemoryPresetRegistry::new()
        .insert(make_preset("/A"))
        .insert(make_preset("/B"))
        .insert(make_preset("/A"));
    assert_eq!(reg.len(), 2);
    let ids: Vec<String> = reg.list().iter().map(|i| i.as_str().to_string()).collect();
    assert_eq!(ids, vec!["B".to_string(), "A".to_string()]);
    assert!(reg.get(&PresetId::new("/A").unwrap()).is_some());
}

#[test]
fn preset_arg_reads_back_its_own_text() {
    for a in [date(2026, 12, 25), date(12345, 1, 1), date(-44, 3, 15), date(0, 2, 29)] {
        let text = a.to_display_string();
        assert_eq!(PresetArg::from_tagged("date", &text), Ok(a));
    }
    let t = PresetArg::Text("hello world".to_string());
    assert_eq!(PresetArg::from_tagged("text", &t.to_display_string()), Ok(t));
    let u = PresetArg::url("https://example.com/a?b=c").expect("valid url");
    assert_eq!(PresetArg::from_tagged("url", &u.to_display_string()), Ok(u));
    assert_eq!(PresetArg::from_tagged("color", "red"), Err(PresetArgError::UnknownKind));
}
