use quilt_domain::canonicalization::value_objects::ProjectionConflict as PatchConflict;
use quilt_domain::entities::block::Block;
use quilt_domain::entities::template_contract::PropertyKey;
use quilt_domain::projection::conflict::ProjectionConflict;
use quilt_domain::projection::contract::{ContractIdError, ProjectionContract, ProjectionContractId};
use quilt_domain::projection::default::DefaultProjection;
use quilt_domain::projection::predicate::{PropertyPredicate, PropertyPredicateBuilder};
use quilt_domain::projection::projection_trait::{Projection, ProjectionContext};
use quilt_domain::projection::view::{
    Decoration, DecorationKind, LinkKind, LinkView, ProjectionViewBuilder, ProjectionViewDelta,
};
use quilt_domain::properties::types::MergePolicy;
use quilt_domain::str_map::StrMap;
use quilt_domain::value_objects::{PropertyValue, Uuid};
use std::collections::HashSet;

fn make_block(props: &[(&str, PropertyValue)]) -> Block {
    let mut p = StrMap::new();
    for (k, v) in props {
        p.insert(k.to_string(), v.clone());
    }
    Block { content: "Hello world".into(), properties: p, ..Block::default() }
}

fn key(s: &str) -> PropertyKey {
    PropertyKey::new(s).unwrap()
}

// ── conflict ─────────────────────────────────────────────────────

#[test]
fn projection_conflict_constructs() {
    let conflict = ProjectionConflict {
        reason: "tied score: 2 contracts".into(),
        candidates: vec![ProjectionContractId::new("task").unwrap(), ProjectionContractId::new("media").unwrap()],
        winner: None,
        block_id: Uuid::new_v4(),
    };
    assert_eq!(conflict.candidates.len(), 2);
    assert!(conflict.winner.is_none());
}

#[test]
fn distinct_from_patch_level_via_path() {
    let _patch = PatchConflict {
        property: key("type"),
        existing_value: PropertyValue::string("a"),
        attempted_value: PropertyValue::string("b"),
        policy: MergePolicy::Overwrite,
        reason: "patch conflict".into(),
    };
    let _layer = ProjectionConflict { reason: "layer conflict".into(), candidates: vec![], winner: None, block_id: Uuid::new_v4() };
}

// ── contract ─────────────────────────────────────────────────────

#[test]
fn contract_id_valid_ids_construct() {
    for id in ["default", "task", "media", "heading", "link", "date", "video", "audio"] {
        ProjectionContractId::new(id).expect("valid ID should construct");
    }
}

#[test]
fn contract_id_rejects_empty() {
    assert!(matches!(ProjectionContractId::new(""), Err(ContractIdError::Empty)));
}

#[test]
fn contract_id_rejects_whitespace() {
    assert!(ProjectionContractId::new("task view").is_err());
    assert!(ProjectionContractId::new("task\tview").is_err());
}

#[test]
fn contract_id_rejects_uppercase() {
    assert!(ProjectionContractId::new("Task").is_err());
    assert!(ProjectionContractId::new("TASK").is_err());
    assert!(ProjectionContractId::new("TaskView").is_err());
}

#[test]
fn contract_id_hashable() {
    let mut set = HashSet::new();
    set.insert(ProjectionContractId::new("task").unwrap());
    set.insert(ProjectionContractId::new("media").unwrap());
    assert_eq!(set.len(), 2);
}

#[test]
fn contract_default_priority_1000() {
    let contract = ProjectionContract::new(ProjectionContractId::new("task").unwrap());
    assert_eq!(contract.priority, 1000);
}

#[test]
fn contract_with_predicate_appends() {
    let contract = ProjectionContract::new(ProjectionContractId::new("task").unwrap())
        .with_predicate(PropertyPredicate::IsSet { key: key("status") });
    assert_eq!(contract.predicates.len(), 1);
}

#[test]
fn contract_with_predicates_replaces() {
    let pred1 = PropertyPredicate::IsSet { key: key("a") };
    let pred2 = PropertyPredicate::IsSet { key: key("b") };
    let contract = ProjectionContract::new(ProjectionContractId::new("task").unwrap()).with_predicates(vec![pred1, pred2]);
    assert_eq!(contract.predicates.len(), 2);
}

#[test]
fn matches_block_all_predicates_must_match() {
    let block = make_block(&[("type", PropertyValue::string("task")), ("status", PropertyValue::string("todo"))]);
    let contract = ProjectionContract::new(ProjectionContractId::new("task").unwrap()).with_predicates(vec![
        PropertyPredicate::Equals { key: key("type"), value: PropertyValue::string("task") },
        PropertyPredicate::IsSet { key: key("status") },
    ]);
    assert!(contract.matches_block(&block));
}

#[test]
fn matches_block_empty_predicates_is_wildcard() {
    let block = make_block(&[]);
    let contract = ProjectionContract::new(ProjectionContractId::new("default").unwrap());
    assert!(contract.matches_block(&block));
    assert!(!contract.matches_block_with_guard(&block, Some(false)));
    assert!(contract.matches_block_with_guard(&block, Some(true)));
}

#[test]
fn guard_is_asked_only_when_predicates_match() {
    let block = make_block(&[("type", PropertyValue::string("task"))]);
    let contract = ProjectionContract::new(ProjectionContractId::new("task").unwrap())
        .with_predicate(PropertyPredicate::IsSet { key: key("status") });
    assert!(!contract.matches_block_with_guard(&block, Some(true)));
    assert!(!contract.matches_block_with_guard(&block, None));
}

#[test]
fn distinct_from_patch_level_projection_conflict() {
    let _patch = PatchConflict {
        property: key("type"),
        existing_value: PropertyValue::string("a"),
        attempted_value: PropertyValue::string("b"),
        policy: MergePolicy::Overwrite,
        reason: "test".into(),
    };
    let _layer = ProjectionConflict { reason: "test".into(), candidates: vec![], winner: None, block_id: Uuid::new_v4() };
    fn _assert_distinct(_: PatchConflict, _: ProjectionConflict) {}
}

#[test]
fn contract_id_errors_have_messages() {
    assert_eq!(ContractIdError::Empty.to_display_string(), "contract ID cannot be empty");
    let id = ProjectionContractId::new("task").unwrap();
    assert_eq!(id.as_str(), "task");
    assert_eq!(id.to_display_string(), "task");
}

// ── default projection ───────────────────────────────────────────

#[test]
fn default_projection_size_of_is_zero() {
    assert_eq!(std::mem::size_of::<DefaultProjection>(), 0);
}

#[test]
fn default_projection_is_copy() {
    fn _assert_copy<T: Copy>() {}
    _assert_copy::<DefaultProjection>();
}

#[test]
fn default_projection_default_equals_new() {
    assert_eq!(DefaultProjection::default(), DefaultProjection::new());
}

#[test]
fn default_contract_id_returns_default() {
    let p = DefaultProjection::new();
    assert_eq!(p.contract_id().as_str(), "default");
}

#[test]
fn default_apply_returns_empty_delta_regardless_of_block() {
    let p = DefaultProjection::new();
    let block = make_block(&[]);
    let ctx = ProjectionContext::page(1_700_000_000_000);
    let delta = p.apply(&block, &ctx);
    assert!(delta.decorations.is_empty());
    assert!(delta.view_properties.is_empty());
    assert!(delta.conflicts.is_empty());
}

#[test]
fn default_apply_does_not_depend_on_now() {
    let p = DefaultProjection::new();
    let block = make_block(&[]);
    let ctx1 = ProjectionContext::page(1);
    let ctx2 = ProjectionContext::page(2);
    let delta1 = p.apply(&block, &ctx1);
    let delta2 = p.apply(&block, &ctx2);
    assert_eq!(delta1, delta2);
}

// ── projection trait ─────────────────────────────────────────────

struct DummyProjection {
    id: ProjectionContractId,
}

impl Projection for DummyProjection {
    fn contract_id(&self) -> ProjectionContractId {
        self.id.clone()
    }

    fn apply(&self, _block: &Block, _ctx: &ProjectionContext) -> ProjectionViewDelta {
        ProjectionViewDelta::default()
    }
}

#[test]
fn projection_trait_has_exactly_two_methods() {
    fn _check_trait<T: Projection>() {}
    _check_trait::<DummyProjection>();
}

#[test]
fn projection_is_object_safe() {
    let boxed: Box<dyn Projection> = Box::new(DummyProjection { id: ProjectionContractId::new("test").unwrap() });
    let block = make_block(&[]);
    let ctx = ProjectionContext::page(0);
    let delta = boxed.apply(&block, &ctx);
    assert_eq!(delta.decorations.len(), 0);
}

#[test]
fn projection_context_new() {
    let now = 1_700_000_000_123;
    let ctx = ProjectionContext::new("slide", now);
    assert_eq!(ctx.active_view, "slide");
    assert_eq!(ctx.now, now);
}

#[test]
fn projection_context_page() {
    let now = 42;
    let ctx = ProjectionContext::page(now);
    assert_eq!(ctx.active_view, "page");
    assert_eq!(ctx.now, now);
}

// ── predicate ────────────────────────────────────────────────────

#[test]
fn equals_matches_type_equal_value() {
    let block = make_block(&[("type", PropertyValue::string("task"))]);
    let pred = PropertyPredicate::Equals { key: key("type"), value: PropertyValue::string("task") };
    assert!(pred.matches(&block));
}

#[test]
fn equals_rejects_type_mismatched() {
    let block = make_block(&[("count", PropertyValue::integer(42))]);
    let pred = PropertyPredicate::Equals { key: key("count"), value: PropertyValue::string("42") };
    assert!(!pred.matches(&block));
}

#[test]
fn equals_returns_false_for_missing_key() {
    let block = make_block(&[]);
    let pred = PropertyPredicate::Equals { key: key("type"), value: PropertyValue::string("task") };
    assert!(!pred.matches(&block));
}

#[test]
fn is_set_matches_empty_string() {
    let block = make_block(&[("status", PropertyValue::string(""))]);
    let pred = PropertyPredicate::IsSet { key: key("status") };
    assert!(pred.matches(&block));
}

#[test]
fn is_set_returns_false_only_when_absent() {
    let block = make_block(&[]);
    let pred = PropertyPredicate::IsSet { key: key("status") };
    assert!(!pred.matches(&block));
}

#[test]
fn is_one_of_matches_value_in_set() {
    let block = make_block(&[("status", PropertyValue::string("done"))]);
    let pred = PropertyPredicate::IsOneOf {
        key: key("status"),
        values: vec![PropertyValue::string("todo"), PropertyValue::string("done"), PropertyValue::string("cancelled")],
    };
    assert!(pred.matches(&block));
}

#[test]
fn is_one_of_empty_never_matches() {
    let block = make_block(&[("status", PropertyValue::string("wip"))]);
    let pred = PropertyPredicate::IsOneOf {
        key: key("status"),
        values: vec![PropertyValue::string("todo"), PropertyValue::string("done")],
    };
    assert!(!pred.matches(&block));
}

#[test]
fn matches_regex_anchored_substring() {
    let block = make_block(&[("name", PropertyValue::string("my-awesome-task"))]);
    let pred = PropertyPredicate::MatchesRegex { key: key("name"), pattern: "awesome".to_string() };
    assert!(pred.matches(&block));
}

#[test]
fn matches_regex_rejects_non_string() {
    let block = make_block(&[("count", PropertyValue::integer(42))]);
    let pred = PropertyPredicate::MatchesRegex { key: key("count"), pattern: "4".to_string() };
    assert!(pred.matches(&block));
}

#[test]
fn matches_regex_malformed_pattern_does_not_panic() {
    let block = make_block(&[("name", PropertyValue::string("test"))]);
    let pred = PropertyPredicate::MatchesRegex { key: key("name"), pattern: "[invalid".to_string() };
    assert!(!pred.matches(&block));
}

#[test]
fn gt_lt_integers() {
    let block = make_block(&[("priority", PropertyValue::integer(5))]);
    let gt = PropertyPredicate::GreaterThan { key: key("priority"), threshold: PropertyValue::integer(3) };
    assert!(gt.matches(&block));
    let lt = PropertyPredicate::LessThan { key: key("priority"), threshold: PropertyValue::integer(10) };
    assert!(lt.matches(&block));
    let gt = PropertyPredicate::GreaterThan { key: key("priority"), threshold: PropertyValue::integer(10) };
    assert!(!gt.matches(&block));
}

#[test]
fn gt_dates() {
    let base = 1_768_435_200_000; // 2026-01-15T00:00:00Z
    let later = 1_769_904_000_000; // 2026-02-01T00:00:00Z
    let block = make_block(&[("deadline", PropertyValue::date(later))]);
    let gt = PropertyPredicate::GreaterThan { key: key("deadline"), threshold: PropertyValue::date(base) };
    assert!(gt.matches(&block));
}

#[test]
fn and_short_circuits() {
    let block = make_block(&[("type", PropertyValue::string("task"))]);
    let pred = PropertyPredicate::And(
        Box::new(PropertyPredicate::Equals { key: key("type"), value: PropertyValue::string("task") }),
        Box::new(PropertyPredicate::IsSet { key: key("status") }),
    );
    assert!(!pred.matches(&block));
}

#[test]
fn or_short_circuits() {
    let block = make_block(&[("type", PropertyValue::string("task"))]);
    let pred = PropertyPredicate::Or(
        Box::new(PropertyPredicate::Equals { key: key("type"), value: PropertyValue::string("task") }),
        Box::new(PropertyPredicate::IsSet { key: key("status") }),
    );
    assert!(pred.matches(&block));
}

#[test]
fn not_inverts() {
    let block = make_block(&[("type", PropertyValue::string("task"))]);
    let pred = PropertyPredicate::Not(Box::new(PropertyPredicate::Equals { key: key("type"), value: PropertyValue::string("media") }));
    assert!(pred.matches(&block));
}

#[test]
fn builders_produce_same_as_enum_variant() {
    let k = key("type");
    let val = PropertyValue::string("task");
    let via_enum = PropertyPredicate::Equals { key: k.clone(), value: val.clone() };
    let via_builder = PropertyPredicateBuilder::equals(k, val).build().unwrap();
    assert_eq!(via_enum, via_builder);
}

#[test]
fn combinators_chain() {
    let k = key("status");
    let pred = PropertyPredicateBuilder::is_set(k.clone())
        .and(PropertyPredicate::Equals { key: k, value: PropertyValue::string("done") })
        .build()
        .unwrap();
    assert!(matches!(pred, PropertyPredicate::And(_, _)));
}

#[test]
fn double_negation_cancels() {
    let block = make_block(&[("type", PropertyValue::string("task"))]);
    let inner = PropertyPredicate::Equals { key: key("type"), value: PropertyValue::string("task") };
    let double_neg = PropertyPredicate::Not(Box::new(PropertyPredicate::Not(Box::new(inner))));
    assert!(double_neg.matches(&block));
}

#[test]
fn arrays_compare_element_wise() {
    let block = make_block(&[(
        "tags",
        PropertyValue::Array(vec![PropertyValue::string("rust"), PropertyValue::string("wasm")]),
    )]);
    let pred = PropertyPredicate::Equals {
        key: key("tags"),
        value: PropertyValue::Array(vec![PropertyValue::string("rust"), PropertyValue::string("wasm")]),
    };
    assert!(pred.matches(&block));
}

#[test]
fn different_lengths_not_equal() {
    let block = make_block(&[("tags", PropertyValue::Array(vec![PropertyValue::string("rust")]))]);
    let pred = PropertyPredicate::Equals {
        key: key("tags"),
        value: PropertyValue::Array(vec![PropertyValue::string("rust"), PropertyValue::string("wasm")]),
    };
    assert!(!pred.matches(&block));
}

#[test]
fn empty_builder_builds_nothing() {
    assert!(PropertyPredicateBuilder::default().build().is_none());
    let p = PropertyPredicateBuilder::negate(PropertyPredicate::IsSet { key: key("x") }).build().unwrap();
    assert!(matches!(p, PropertyPredicate::Not(_)));
}

// ── view ─────────────────────────────────────────────────────────

fn task_block() -> Block {
    make_block(&[("type", PropertyValue::string("task"))])
}

#[test]
fn link_kind_unknown_falls_back_to_external() {
    assert_eq!(LinkKind::default(), LinkKind::External);
}

#[test]
fn decoration_task_checkbox_carries_status() {
    let dec = Decoration { kind: DecorationKind::TaskCheckbox, target: key("status"), value: PropertyValue::string("done"), weight: 100 };
    assert_eq!(dec.kind, DecorationKind::TaskCheckbox);
    assert_eq!(dec.weight, 100);
}

#[test]
fn view_default_carries_full_base_surface() {
    let block = task_block();
    let view = ProjectionViewBuilder::new(&block).build();
    assert_eq!(view.text, "Hello world");
    assert!(view.links.is_empty());
    assert!(view.decorations.is_empty());
    assert!(view.conflicts.is_empty());
    assert_eq!(view.properties.get("type"), Some(&PropertyValue::string("task")));
}

#[test]
fn view_with_links() {
    let block = task_block();
    let view = ProjectionViewBuilder::new(&block)
        .add_link(LinkView { url: "https://example.com".into(), label: "Example".into(), kind: LinkKind::External })
        .build();
    assert_eq!(view.links.len(), 1);
    assert_eq!(view.links[0].url, "https://example.com");
}

#[test]
fn view_exposes_children_in_order() {
    let child1 = Uuid::new_v4();
    let child2 = Uuid::new_v4();
    let mut block = task_block();
    block.refs = vec![child1, child2];
    let view = ProjectionViewBuilder::new(&block).build();
    assert_eq!(view.children, vec![child1, child2]);
}

#[test]
fn view_decorations_compose_never_replace() {
    let block = task_block();
    let base = ProjectionViewBuilder::new(&block)
        .add_decoration(Decoration { kind: DecorationKind::TaskCheckbox, target: key("status"), value: PropertyValue::string("todo"), weight: 100 })
        .build();
    let delta = ProjectionViewDelta {
        decorations: vec![Decoration { kind: DecorationKind::StatusBadge, target: key("status"), value: PropertyValue::string("in-progress"), weight: 50 }],
        ..Default::default()
    };
    let composed = delta.compose_on(base.clone());
    assert_eq!(composed.decorations.len(), 2);
}

#[test]
fn view_properties_expose_effective_set() {
    let block = task_block();
    let view = ProjectionViewBuilder::new(&block).add_property(key("projection"), PropertyValue::string("task")).build();
    assert_eq!(view.properties.get("projection"), Some(&PropertyValue::string("task")));
    assert_eq!(view.properties.get("type"), Some(&PropertyValue::string("task")));
}

#[test]
fn builder_initializes_from_block() {
    let block = task_block();
    let view = ProjectionViewBuilder::new(&block).build();
    assert_eq!(view.text, block.content);
    assert_eq!(view.children, block.refs);
}

#[test]
fn builder_adds_links_decorations_in_order() {
    let block = task_block();
    let view = ProjectionViewBuilder::new(&block)
        .add_link(LinkView { url: "https://a.com".into(), label: "A".into(), kind: LinkKind::External })
        .add_decoration(Decoration { kind: DecorationKind::LinkAffordance, target: key("link"), value: PropertyValue::string("https://a.com"), weight: 100 })
        .add_link(LinkView { url: "https://b.com".into(), label: "B".into(), kind: LinkKind::External })
        .build();
    assert_eq!(view.links.len(), 2);
    assert_eq!(view.links[1].url, "https://b.com");
    assert_eq!(view.decorations.len(), 1);
}

#[test]
fn builder_adds_conflict() {
    let block = task_block();
    let conflict = ProjectionConflict { reason: "tied".into(), candidates: vec![], winner: None, block_id: Uuid::new_v4() };
    let view = ProjectionViewBuilder::new(&block).add_conflict(conflict.clone()).build();
    assert_eq!(view.conflicts.len(), 1);
}

#[test]
fn builder_adds_view_derived_property() {
    let block = task_block();
    let view = ProjectionViewBuilder::new(&block).add_property(key("projection"), PropertyValue::string("default")).build();
    assert!(view.properties.contains_key("projection"));
}

#[test]
fn delta_default_is_empty() {
    let delta = ProjectionViewDelta::default();
    assert!(delta.decorations.is_empty());
    assert!(delta.view_properties.is_empty());
    assert!(delta.conflicts.is_empty());
}

#[test]
fn delta_carries_only_additions() {
    let delta = ProjectionViewDelta {
        decorations: vec![Decoration { kind: DecorationKind::MediaPreview, target: key("source-url"), value: PropertyValue::string("https://img.jpg"), weight: 100 }],
        view_properties: vec![(key("projection"), PropertyValue::string("media"))],
        conflicts: vec![],
    };
    assert_eq!(delta.decorations.len(), 1);
    assert_eq!(delta.view_properties.len(), 1);
}

#[test]
fn delta_is_composable() {
    let block = task_block();
    let base = ProjectionViewBuilder::new(&block).build();
    let delta1 = ProjectionViewDelta {
        decorations: vec![Decoration { kind: DecorationKind::TaskCheckbox, target: key("status"), value: PropertyValue::string("todo"), weight: 100 }],
        ..Default::default()
    };
    let intermediate = delta1.compose_on(base.clone());
    let delta2 = ProjectionViewDelta {
        decorations: vec![Decoration { kind: DecorationKind::StatusBadge, target: key("status"), value: PropertyValue::string("in-progress"), weight: 50 }],
        ..Default::default()
    };
    let final_view = delta2.compose_on(intermediate);
    assert_eq!(final_view.decorations.len(), 2);
}

#[test]
fn composing_a_view_property_overrides_the_base() {
    let block = task_block();
    let base = ProjectionViewBuilder::new(&block).build();
    let delta = ProjectionViewDelta {
        view_properties: vec![(key("type"), PropertyValue::string("media"))],
        ..Default::default()
    };
    let composed = delta.compose_on(base);
    assert_eq!(composed.properties.get("type"), Some(&PropertyValue::string("media")));
    assert_eq!(composed.text, "Hello world");
}
