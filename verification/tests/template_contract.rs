use quilt_domain::entities::template_contract::{PropertyKey, TemplateContract, TemplateLayout, Version};
use quilt_domain::str_map::StrMap;
use quilt_domain::value_objects::Uuid;

// ── PropertyKey tests ─────────────────────────────────────────────

#[test]
fn property_key_normalizes_lowercase() {
    let k = PropertyKey::new("Title").unwrap();
    assert_eq!(k.as_str(), "title");
}

#[test]
fn property_key_normalizes_separators() {
    assert_eq!(PropertyKey::new("foo/bar").unwrap().as_str(), "foo-bar");
    assert_eq!(PropertyKey::new("foo bar").unwrap().as_str(), "foo-bar");
    assert_eq!(PropertyKey::new("foo_bar").unwrap().as_str(), "foo-bar");
}

#[test]
fn property_key_trims_whitespace() {
    let k = PropertyKey::new("  status  ").unwrap();
    assert_eq!(k.as_str(), "status");
}

#[test]
fn property_key_rejects_empty() {
    let result = PropertyKey::new("");
    assert!(result.is_err(), "empty key must be rejected");
}

#[test]
fn property_key_rejects_internal_whitespace() {
    let k = PropertyKey::new("hello world").unwrap();
    assert_eq!(k.as_str(), "hello-world");
}

#[test]
fn property_key_display() {
    let k = PropertyKey::new("status").unwrap();
    assert_eq!(k.to_string(), "status");
}

#[test]
fn property_key_equality_ignores_normalization() {
    let a = PropertyKey::new("Status").unwrap();
    let b = PropertyKey::new("status").unwrap();
    assert_eq!(a, b, "normalized keys compare equal");
}

// ── Version tests ─────────────────────────────────────────────────

#[test]
fn version_new_starts_at_1() {
    let v = Version::new();
    assert_eq!(v.as_u32(), 1);
}

#[test]
fn version_bump_increments() {
    let v = Version::new();
    let v2 = v.bump();
    assert_eq!(v.as_u32(), 1);
    assert_eq!(v2.as_u32(), 2);
}

#[test]
fn version_bump_works() {
    let v = Version::new();
    let v2 = v.bump();
    assert_eq!(v.as_u32(), 1);
    assert_eq!(v2.as_u32(), 2);
}

#[test]
fn version_comparison_works() {
    let v1 = Version::new();
    let v2 = v1.bump();
    assert!(v2 > v1);
    assert!(v1 < v2);
    assert_eq!(v1, Version::new());
}

// ── TemplateLayout tests ──────────────────────────────────────────

#[test]
fn template_layout_property_returns_key() {
    let k = PropertyKey::new("title").unwrap();
    assert_eq!(TemplateLayout::Inline(k.clone()).property(), &k);
    assert_eq!(TemplateLayout::Panel(k.clone()).property(), &k);
    assert_eq!(TemplateLayout::Locked(k.clone()).property(), &k);
}

#[test]
fn template_layout_is_locked_predicate() {
    assert!(TemplateLayout::Locked(PropertyKey::new("id").unwrap()).is_locked());
    assert!(!TemplateLayout::Inline(PropertyKey::new("id").unwrap()).is_locked());
    assert!(!TemplateLayout::Panel(PropertyKey::new("id").unwrap()).is_locked());
}

#[test]
fn template_layout_is_inline_predicate() {
    assert!(TemplateLayout::Inline(PropertyKey::new("id").unwrap()).is_inline());
    assert!(!TemplateLayout::Panel(PropertyKey::new("id").unwrap()).is_inline());
    assert!(!TemplateLayout::Locked(PropertyKey::new("id").unwrap()).is_inline());
}

#[test]
fn template_layout_is_panel_predicate() {
    assert!(TemplateLayout::Panel(PropertyKey::new("id").unwrap()).is_panel());
    assert!(!TemplateLayout::Inline(PropertyKey::new("id").unwrap()).is_panel());
    assert!(!TemplateLayout::Locked(PropertyKey::new("id").unwrap()).is_panel());
}

// ── TemplateContract tests ────────────────────────────────────────

fn sample_contract() -> TemplateContract {
    TemplateContract::builder()
        .template_id(Uuid::new_v4())
        .required_property("title")
        .required_property("status")
        .required_property("template")
        .inline_layout("title")
        .panel_layout("status")
        .locked_layout("template")
        .version(Version::new())
        .build()
        .expect("sample contract should build")
}

#[test]
fn builder_minimal_contract() {
    let c = TemplateContract::builder()
        .template_id(Uuid::new_v4())
        .required_property("title")
        .inline_layout("title")
        .build()
        .expect("build");
    assert_eq!(c.required_properties().len(), 1);
    assert_eq!(c.layout().len(), 1);
    assert!(c.locked_properties().is_empty());
    assert_eq!(c.version().as_u32(), 1);
}

#[test]
fn template_contract_builds_with_all_fields() {
    let contract = sample_contract();
    assert_eq!(contract.required_properties().len(), 3);
    assert_eq!(contract.layout().len(), 3);
    assert_eq!(contract.locked_properties().len(), 1);
    assert_eq!(contract.version().as_u32(), 1);
}

#[test]
fn template_contract_locked_set_includes_all_locked_layouts() {
    let contract = sample_contract();
    let locked = contract.locked_properties();
    assert!(locked.iter().any(|k| k.as_str() == "template"));
}

#[test]
fn template_contract_empty_build_works() {
    let contract = TemplateContract::builder()
        .template_id(Uuid::new_v4())
        .build()
        .expect("empty contract should build");
    assert!(contract.required_properties().is_empty());
    assert!(contract.layout().is_empty());
    assert!(contract.locked_properties().is_empty());
    assert_eq!(contract.version().as_u32(), 1);
}

#[test]
fn template_contract_builder_fails_without_template_id() {
    let result = TemplateContract::builder().required_property("title").build();
    assert!(result.is_err(), "template_id is required");
}

#[test]
fn template_contract_validation_layout_keys_must_be_unique() {
    let result = TemplateContract::builder()
        .template_id(Uuid::new_v4())
        .inline_layout("title")
        .panel_layout("title")
        .build();
    assert!(result.is_err(), "duplicate layout keys must be rejected");
}

#[test]
fn template_contract_validation_required_must_have_layout() {
    let result = TemplateContract::builder()
        .template_id(Uuid::new_v4())
        .required_property("title")
        .build();
    assert!(result.is_err(), "required property without layout must be rejected");
}

#[test]
fn template_contract_layout_must_have_required_for_non_locked() {
    let result = TemplateContract::builder()
        .template_id(Uuid::new_v4())
        .inline_layout("title")
        .build();
    assert!(result.is_err(), "non-locked layout must also be required (inversion of above)");
}

#[test]
fn template_contract_validation_passes_when_consistent() {
    let contract = TemplateContract::builder()
        .template_id(Uuid::new_v4())
        .required_property("title")
        .required_property("status")
        .inline_layout("title")
        .panel_layout("status")
        .build();
    assert!(contract.is_ok(), "consistent contract should build");
}

#[test]
fn template_contract_validation_locked_must_be_required() {
    let result = TemplateContract::builder()
        .template_id(Uuid::new_v4())
        .required_property("title")
        .locked_layout("id")
        .build();
    assert!(result.is_err(), "locked property must be declared as required");
}

#[test]
fn template_contract_validation_locked_also_required_works() {
    let result = TemplateContract::builder()
        .template_id(Uuid::new_v4())
        .required_property("id")
        .locked_layout("id")
        .build();
    assert!(result.is_ok(), "locked+required declaration should be valid");
}

// ── Contract validation logic tests ───────────────────────────────

fn kv(props: &[(&str, &str)]) -> StrMap<String> {
    let mut m = StrMap::new();
    for (k, v) in props {
        m.insert(k.to_string(), v.to_string());
    }
    m
}

#[test]
fn property_key_normalizes_internally() {
    let c = TemplateContract::builder()
        .template_id(Uuid::new_v4())
        .required_property("  Status  ")
        .inline_layout("status")
        .build()
        .expect("build");
    assert_eq!(c.required_properties()[0].as_str(), "status");
}

#[test]
fn contract_validates_required_properties_present() {
    let contract = sample_contract();
    let props = kv(&[("title", "My Title"), ("status", "todo"), ("template", "ref")]);
    assert!(contract.validate_application(&props).is_ok());

    let props = kv(&[("title", "My Title"), ("template", "ref")]);
    let result = contract.validate_application(&props);
    assert!(result.is_err());
    let err = result.unwrap_err().to_display_string();
    assert!(err.contains("status"), "error should mention missing key: {err}");
}

#[test]
fn contract_validates_locked_property_not_overridden() {
    let contract = sample_contract();
    let template_values = kv(&[("title", ""), ("status", ""), ("template", "ref-template")]);
    let proposed = kv(&[("title", "x"), ("status", "y"), ("template", "changed-by-user")]);

    let result = contract.check_locked_against_template(&proposed, &template_values);
    assert!(result.is_err(), "changing a locked property must be rejected: {result:?}");
    let err = result.unwrap_err().to_display_string();
    assert!(err.contains("template"), "error should mention the property: {err}");
}

#[test]
fn contract_strict_locked_check_passes_when_values_match() {
    let contract = sample_contract();
    let template_values =
        kv(&[("title", "Original Title"), ("status", "todo"), ("template", "ref-template")]);
    let proposed =
        kv(&[("title", "User's Title"), ("status", "in-progress"), ("template", "ref-template")]);
    assert!(contract.check_locked_against_template(&proposed, &template_values).is_ok());
}

#[test]
fn contract_version_mismatch_returns_error() {
    let contract_v1 = sample_contract();
    let expected_v2 = contract_v1.version().bump();

    let props = kv(&[("title", "x"), ("status", "y"), ("template", "ref")]);
    let result = contract_v1.validate_application_with_version(&props, expected_v2);
    assert!(result.is_err(), "version mismatch must be detected");
    let err = result.unwrap_err().to_display_string();
    assert!(err.to_lowercase().contains("version"), "error must mention 'version': {err}");
}

#[test]
fn contract_version_match_passes() {
    let contract = sample_contract();
    let props = kv(&[("title", "x"), ("status", "y"), ("template", "ref")]);
    let result = contract.validate_application_with_version(&props, *contract.version());
    assert!(result.is_ok(), "matching version should pass: {result:?}");
}

#[test]
fn contract_check_locked_passes_when_locked_unchanged() {
    let contract = sample_contract();
    let props = kv(&[("title", "x"), ("status", "y"), ("template", "the-template")]);
    let result = contract.check_locked_mutations(&props);
    assert!(result.is_ok());
}

#[test]
fn contract_extra_properties_are_allowed() {
    let contract = sample_contract();
    let props = kv(&[
        ("title", "x"),
        ("status", "y"),
        ("template", "ref"),
        ("my-custom-prop", "user-value"),
    ]);
    assert!(contract.validate_application(&props).is_ok());
}
