use quilt_domain::entities::annotation::{
    Annotation, AnnotationCreate, AnnotationScope, AnnotationStatus, AuthorType,
};
use quilt_domain::entities::asset::Asset;
use quilt_domain::entities::deep_link::{DeepLink, DeepLinkCreate, LinkSourceType, LinkType};
use quilt_domain::entities::file::File;
use quilt_domain::entities::global_app_state::{GlobalAppState, RECENTS_CAP};
use quilt_domain::entities::graph_space::GraphSpace;
use quilt_domain::entities::scheduled_task::{ScheduledTask, TaskType};
use quilt_domain::entities::tag::Tag;
use quilt_domain::entities::user_settings::UserSettings;
use quilt_domain::errors::domain_error::DomainError;
use quilt_domain::value_objects::{Align, AssetType, BlockFormat, Uuid};

// ── GlobalAppState ────────────────────────────────────────────────

#[test]
fn push_recent_dedupes() {
    let mut s = GlobalAppState::default();
    s.push_recent("/a".to_string());
    s.push_recent("/b".to_string());
    s.push_recent("/a".to_string());
    assert_eq!(s.recent_graphs, vec!["/a".to_string(), "/b".to_string()]);
}

#[test]
fn push_recent_caps_to_recents_cap() {
    let mut s = GlobalAppState::default();
    for i in 0..(RECENTS_CAP + 5) {
        s.push_recent(format!("/g{i}"));
    }
    assert_eq!(s.recent_graphs.len(), RECENTS_CAP);
    assert_eq!(s.recent_graphs[0], format!("/g{}", RECENTS_CAP + 4));
}

#[test]
fn default_is_empty() {
    let s = GlobalAppState::default();
    assert!(s.last_opened_graph.is_none());
    assert!(s.recent_graphs.is_empty());
    assert!(s.right_sidebar_visible.is_none());
}

#[test]
fn new_applies_cap_and_dedup() {
    let paths: Vec<String> = (0..20).map(|i| format!("/g{i}")).collect();
    let s = GlobalAppState::new(None, paths, None);
    assert_eq!(s.recent_graphs.len(), RECENTS_CAP);
    assert_eq!(s.recent_graphs[0], "/g19".to_string());
}

#[test]
fn new_drops_repeated_paths_keeping_the_latest() {
    let paths = vec!["/a".to_string(), "/b".to_string(), "/a".to_string()];
    let s = GlobalAppState::new(Some("/a".to_string()), paths, Some(true));
    assert_eq!(s.recent_graphs, vec!["/a".to_string(), "/b".to_string()]);
    assert_eq!(s.last_opened_graph, Some("/a".to_string()));
    assert_eq!(s.right_sidebar_visible, Some(true));
}

// ── GraphSpace ────────────────────────────────────────────────────

#[test]
fn test_default_graph_space() {
    let gs = GraphSpace::default();
    assert_eq!(gs.name, "My Graph");
    assert_eq!(gs.description, "");
    assert_eq!(gs.version, "1.0");
}

#[test]
fn test_validate_valid_graph_space() {
    let gs = GraphSpace::default();
    assert!(gs.validate().is_ok());
}

#[test]
fn test_validate_empty_name() {
    let gs = GraphSpace { name: "".to_string(), ..Default::default() };
    let result = gs.validate();
    assert!(result.is_err());
    match result.unwrap_err() {
        DomainError::InvalidConfiguration(msg) => {
            assert!(msg.contains("name cannot be empty"));
        }
        _ => panic!("Expected InvalidConfiguration error"),
    }
}

#[test]
fn test_validate_name_too_long() {
    let gs = GraphSpace { name: "a".repeat(256), ..Default::default() };
    let result = gs.validate();
    assert!(result.is_err());
    match result.unwrap_err() {
        DomainError::InvalidConfiguration(msg) => {
            assert!(msg.contains("name cannot exceed 255"));
        }
        _ => panic!("Expected InvalidConfiguration error"),
    }
}

#[test]
fn graph_space_name_of_255_characters_is_valid() {
    let gs = GraphSpace { name: "a".repeat(255), ..Default::default() };
    assert!(gs.validate().is_ok());
}

// ── UserSettings ──────────────────────────────────────────────────

#[test]
fn test_default_settings() {
    let settings = UserSettings::default();
    assert_eq!(settings.timezone, "UTC");
    assert_eq!(settings.journal_format, "%Y-%m-%d");
    assert_eq!(settings.start_of_week, 1);
    assert_eq!(settings.preferred_format, BlockFormat::Markdown);
}

#[test]
fn test_validate_valid_settings() {
    let settings = UserSettings::default();
    assert!(settings.validate().is_ok());
}

#[test]
fn test_validate_invalid_timezone() {
    let settings = UserSettings { timezone: "Invalid/Zone".to_string(), ..Default::default() };
    let result = settings.validate();
    assert!(result.is_err());
    match result.unwrap_err() {
        DomainError::InvalidTimezone(tz) => assert_eq!(tz, "Invalid/Zone"),
        _ => panic!("Expected InvalidTimezone error"),
    }
}

#[test]
fn test_validate_invalid_start_of_week() {
    let settings = UserSettings { start_of_week: 7, ..Default::default() };
    let result = settings.validate();
    assert!(result.is_err());
    match result.unwrap_err() {
        DomainError::InvalidConfiguration(msg) => {
            assert!(msg.contains("start_of_week"));
        }
        _ => panic!("Expected InvalidConfiguration error"),
    }
}

#[test]
fn test_validate_empty_journal_format() {
    let settings = UserSettings { journal_format: "".to_string(), ..Default::default() };
    let result = settings.validate();
    assert!(result.is_err());
    match result.unwrap_err() {
        DomainError::InvalidConfiguration(msg) => {
            assert!(msg.contains("journal_format"));
        }
        _ => panic!("Expected InvalidConfiguration error"),
    }
}

#[test]
fn test_common_timezones() {
    let timezones = UserSettings::common_timezones();
    assert!(!timezones.is_empty());
    assert!(timezones.iter().any(|(id, _)| *id == "UTC"));
    assert!(timezones[0].1.contains("UTC"));
}

#[test]
fn a_known_zone_name_validates() {
    let settings = UserSettings { timezone: "Europe/Madrid".to_string(), ..Default::default() };
    assert!(settings.validate().is_ok());
}

// ── Annotation ────────────────────────────────────────────────────

fn create_test_annotation(author_type: AuthorType, content: &str) -> Result<Annotation, DomainError> {
    Annotation::new(AnnotationCreate {
        block_id: Uuid::new_v4(),
        author_type,
        author_name: "test_user".to_string(),
        content: content.to_string(),
        parent_annotation_id: None,
        scope: AnnotationScope::Block,
        highlight_start: None,
        highlight_end: None,
    })
}

#[test]
fn test_annotation_creation() {
    let annotation = create_test_annotation(AuthorType::Human, "Please expand this section").unwrap();
    assert!(annotation.id != Uuid::nil());
    assert_eq!(annotation.status, AnnotationStatus::Pending);
    assert_eq!(annotation.author_type, AuthorType::Human);
    assert_eq!(annotation.resolved_at, None);
    assert_eq!(annotation.resolved_by, None);
}

#[test]
fn test_annotation_empty_content_rejected() {
    let result = create_test_annotation(AuthorType::Human, "   ");
    assert!(result.is_err());
}

#[test]
fn test_annotation_resolve() {
    let mut annotation = create_test_annotation(AuthorType::Agent, "Fixed the typo").unwrap();
    annotation.resolve("agent-desktop".to_string());

    assert_eq!(annotation.status, AnnotationStatus::Resolved);
    assert!(annotation.resolved_at.is_some());
    assert_eq!(annotation.resolved_by, Some("agent-desktop".to_string()));
}

#[test]
fn test_annotation_set_in_progress() {
    let mut annotation = create_test_annotation(AuthorType::Human, "Please review").unwrap();
    assert!(annotation.is_pending());

    annotation.set_in_progress();
    assert_eq!(annotation.status, AnnotationStatus::InProgress);
}

#[test]
fn test_annotation_dismiss() {
    let mut annotation = create_test_annotation(AuthorType::Human, "Not needed").unwrap();
    annotation.dismiss();
    assert_eq!(annotation.status, AnnotationStatus::Dismissed);
}

#[test]
fn test_annotation_belongs_to_block() {
    let block_id = Uuid::new_v4();
    let annotation = Annotation::new(AnnotationCreate {
        block_id,
        author_type: AuthorType::Human,
        author_name: "ruben".to_string(),
        content: "Test".to_string(),
        parent_annotation_id: None,
        scope: AnnotationScope::Block,
        highlight_start: None,
        highlight_end: None,
    })
    .unwrap();

    assert!(annotation.belongs_to_block(block_id));
    assert!(!annotation.belongs_to_block(Uuid::new_v4()));
}

#[test]
fn test_author_type_conversion() {
    assert_eq!(AuthorType::Human.as_str(), "human");
    assert_eq!(AuthorType::Agent.as_str(), "agent");
    assert_eq!(AuthorType::try_from_str("human"), Some(AuthorType::Human));
    assert_eq!(AuthorType::try_from_str("agent"), Some(AuthorType::Agent));
    assert_eq!(AuthorType::try_from_str("unknown"), None);
}

#[test]
fn test_annotation_status_conversion() {
    assert_eq!(AnnotationStatus::Pending.as_str(), "pending");
    assert_eq!(AnnotationStatus::InProgress.as_str(), "in_progress");
    assert_eq!(AnnotationStatus::Resolved.as_str(), "resolved");
    assert_eq!(AnnotationStatus::Dismissed.as_str(), "dismissed");

    assert!(!AnnotationStatus::Pending.is_terminal());
    assert!(!AnnotationStatus::InProgress.is_terminal());
    assert!(AnnotationStatus::Resolved.is_terminal());
    assert!(AnnotationStatus::Dismissed.is_terminal());
}

fn inline_create(start: Option<u32>, end: Option<u32>) -> AnnotationCreate {
    AnnotationCreate {
        block_id: Uuid::from_u128(9),
        author_type: AuthorType::Human,
        author_name: "ruben".to_string(),
        content: "Check this".to_string(),
        parent_annotation_id: None,
        scope: AnnotationScope::Inline,
        highlight_start: start,
        highlight_end: end,
    }
}

#[test]
fn inline_annotation_needs_an_ordered_range() {
    let msg = "Inline annotation requires both highlightStart and highlightEnd offsets";
    for (s, e) in [(None, Some(4)), (Some(2), None), (Some(4), Some(4)), (Some(5), Some(4))] {
        match Annotation::new(inline_create(s, e)) {
            Err(DomainError::InvalidData(m)) => assert_eq!(m, msg),
            other => panic!("expected InvalidData, got {other:?}"),
        }
    }
    let a = Annotation::new_at(inline_create(Some(2), Some(4)), Uuid::from_u128(7), 1000).unwrap();
    assert_eq!(a.id, Uuid::from_u128(7));
    assert_eq!(a.created_at, 1000);
    assert_eq!(a.scope, AnnotationScope::Inline);
    assert_eq!((a.highlight_start, a.highlight_end), (Some(2), Some(4)));
}

#[test]
fn blank_content_error_message() {
    match create_test_annotation(AuthorType::Human, " \t\n") {
        Err(DomainError::InvalidData(m)) => assert_eq!(m, "Annotation content cannot be empty"),
        other => panic!("expected InvalidData, got {other:?}"),
    }
}

#[test]
fn start_does_not_reopen_a_final_annotation() {
    let mut a = create_test_annotation(AuthorType::Human, "x").unwrap();
    a.resolve_at("agent".to_string(), 5);
    a.set_in_progress();
    assert_eq!(a.status, AnnotationStatus::Resolved);
    assert_eq!(a.resolved_at, Some(5));
    assert!(a.is_resolved());
    assert_eq!(AnnotationScope::try_from_str("inline"), Some(AnnotationScope::Inline));
    assert_eq!(AnnotationStatus::try_from_str("in_progress"), Some(AnnotationStatus::InProgress));
    assert_eq!(AnnotationStatus::try_from_str("done"), None);
}

// ── DeepLink ──────────────────────────────────────────────────────

fn create_test_uuid() -> Uuid {
    Uuid::parse_str("550e8400-e29b-41d4-a716-446655440000").unwrap()
}

#[test]
fn test_deep_link_creation_internal_block() {
    let source_id = create_test_uuid();
    let target_id = Uuid::new_v4();

    let create = DeepLinkCreate {
        source_id,
        source_type: LinkSourceType::Block,
        target_id: Some(target_id),
        target_page_name: None,
        link_type: LinkType::InternalBlock,
        external_url: None,
        link_text: Some("Related concept".to_string()),
        context: Some("See also this topic".to_string()),
    };

    let link = DeepLink::new(create).unwrap();
    assert_eq!(link.source_id, source_id);
    assert_eq!(link.target_id, Some(target_id));
    assert_eq!(link.link_type, LinkType::InternalBlock);
    assert_eq!(link.link_text, Some("Related concept".to_string()));
    assert!(link.is_internal());
    assert!(!link.is_external());
}

#[test]
fn test_deep_link_creation_external_url() {
    let source_id = create_test_uuid();

    let create = DeepLinkCreate {
        source_id,
        source_type: LinkSourceType::Block,
        target_id: None,
        target_page_name: None,
        link_type: LinkType::ExternalUrl,
        external_url: Some("https://example.com".to_string()),
        link_text: Some("External resource".to_string()),
        context: None,
    };

    let link = DeepLink::new(create).unwrap();
    assert_eq!(link.link_type, LinkType::ExternalUrl);
    assert_eq!(link.external_url, Some("https://example.com".to_string()));
    assert!(link.is_external());
    assert!(!link.is_internal());
}

#[test]
fn test_deep_link_validation_missing_url() {
    let create = DeepLinkCreate {
        source_id: create_test_uuid(),
        source_type: LinkSourceType::Block,
        target_id: None,
        target_page_name: None,
        link_type: LinkType::ExternalUrl,
        external_url: None,
        link_text: None,
        context: None,
    };

    let result = DeepLink::new(create);
    assert!(result.is_err());
}

#[test]
fn test_deep_link_validation_missing_target() {
    let create = DeepLinkCreate {
        source_id: create_test_uuid(),
        source_type: LinkSourceType::Block,
        target_id: None,
        target_page_name: None,
        link_type: LinkType::InternalBlock,
        external_url: None,
        link_text: None,
        context: None,
    };

    let result = DeepLink::new(create);
    assert!(result.is_err());
}

#[test]
fn test_target_identifier_block() {
    let target_id = Uuid::parse_str("550e8400-e29b-41d4-a716-446655440000").unwrap();
    let create = DeepLinkCreate {
        source_id: Uuid::new_v4(),
        source_type: LinkSourceType::Block,
        target_id: Some(target_id),
        target_page_name: None,
        link_type: LinkType::InternalBlock,
        external_url: None,
        link_text: None,
        context: None,
    };

    let link = DeepLink::new(create).unwrap();
    assert_eq!(link.target_identifier(), format!("block:{}", target_id.to_string()));
    assert_eq!(link.target_identifier(), "block:550e8400-e29b-41d4-a716-446655440000");
}

#[test]
fn test_target_identifier_page() {
    let create = DeepLinkCreate {
        source_id: Uuid::new_v4(),
        source_type: LinkSourceType::Page,
        target_id: None,
        target_page_name: Some("My Page".to_string()),
        link_type: LinkType::InternalPage,
        external_url: None,
        link_text: None,
        context: None,
    };

    let link = DeepLink::new(create).unwrap();
    assert_eq!(link.target_identifier(), "page:My Page");
}

#[test]
fn test_target_identifier_external() {
    let create = DeepLinkCreate {
        source_id: Uuid::new_v4(),
        source_type: LinkSourceType::Block,
        target_id: None,
        target_page_name: None,
        link_type: LinkType::ExternalUrl,
        external_url: Some("https://rust-lang.org".to_string()),
        link_text: None,
        context: None,
    };

    let link = DeepLink::new(create).unwrap();
    assert_eq!(link.target_identifier(), "https://rust-lang.org");
}

#[test]
fn test_link_type_from_str() {
    assert_eq!(LinkType::try_from_str("block"), Some(LinkType::InternalBlock));
    assert_eq!(LinkType::try_from_str("page"), Some(LinkType::InternalPage));
    assert_eq!(LinkType::try_from_str("url"), Some(LinkType::ExternalUrl));
    assert_eq!(LinkType::try_from_str("unknown"), None);
}

#[test]
fn test_link_source_type_from_str() {
    assert_eq!(LinkSourceType::try_from_str("block"), Some(LinkSourceType::Block));
    assert_eq!(LinkSourceType::try_from_str("page"), Some(LinkSourceType::Page));
    assert_eq!(LinkSourceType::try_from_str("unknown"), None);
}

#[test]
fn page_link_without_name_is_rejected_with_its_message() {
    let create = DeepLinkCreate {
        source_id: Uuid::from_u128(1),
        source_type: LinkSourceType::Page,
        target_id: Some(Uuid::from_u128(2)),
        target_page_name: None,
        link_type: LinkType::InternalPage,
        external_url: None,
        link_text: None,
        context: None,
    };
    match DeepLink::new_at(create, Uuid::from_u128(3), 0) {
        Err(DomainError::InvalidData(m)) => {
            assert_eq!(m, "Target page name is required for internal page links")
        }
        other => panic!("expected InvalidData, got {other:?}"),
    }
    assert_eq!(LinkType::ExternalUrl.as_str(), "url");
    assert_eq!(LinkSourceType::Page.as_str(), "page");
}

// ── Asset ─────────────────────────────────────────────────────────

#[test]
fn test_asset_creation() {
    let block_id = Uuid::new_v4();
    let file_id = Uuid::new_v4();

    let asset = Asset::new(block_id, file_id, AssetType::Image)
        .with_dimensions(800, 600)
        .with_align(Align::Left);

    assert_eq!(asset.block_id(), block_id);
    assert_eq!(asset.file_id(), file_id);
    let terms = asset.aspect_ratio_terms();
    assert!(terms.is_some());
    let (w, h) = terms.unwrap();
    assert_eq!(w as f64 / h as f64, 800.0 / 600.0);
}

#[test]
fn test_external_asset() {
    let block_id = Uuid::new_v4();
    let asset = Asset::external(block_id, "https://example.com/image.png".to_string());

    assert!(asset.is_external());
}

#[test]
fn aspect_ratio_needs_a_positive_height() {
    let a = Asset::new(Uuid::from_u128(1), Uuid::from_u128(2), AssetType::Pdf);
    assert_eq!(a.aspect_ratio_terms(), None);
    assert_eq!(a.asset_type(), AssetType::Pdf);
    assert!(!a.is_external());
    let a = a.with_dimensions(10, 0);
    assert_eq!(a.aspect_ratio_terms(), None);
}

// ── Tag ───────────────────────────────────────────────────────────

#[test]
fn test_tag_creation() {
    let page_id = Uuid::new_v4();
    let tag = Tag::new(page_id, "rust".to_string());

    assert_eq!(tag.name, "rust");
    assert_eq!(tag.full_name(), "#rust");
}

#[test]
fn test_hierarchical_tags() {
    let page_id = Uuid::new_v4();
    let tag = Tag::new(page_id, "rust/async".to_string());

    assert!(tag.is_child_of("rust"));
    assert!(!tag.is_child_of("python"));
    assert_eq!(tag.parent_name(), Some("rust".to_string()));
}

#[test]
fn tag_without_slash_is_its_own_first_segment() {
    let tag = Tag::new_at(Uuid::from_u128(4), "notes".to_string(), 12);
    assert_eq!(tag.parent_name(), Some("notes".to_string()));
    assert!(!tag.is_child_of("notes"));
    assert_eq!(tag.page_id(), Uuid::from_u128(4));
    assert_eq!(tag.name(), "notes");
    assert_eq!(tag.created_at, 12);
}

// ── File ──────────────────────────────────────────────────────────

#[test]
fn test_file_creation() {
    let file = File::new(
        "pages/test.md".to_string(),
        Some("# Hello".to_string()),
        Some("text/markdown".to_string()),
    );

    assert_eq!(file.path(), "pages/test.md");
    assert!(file.is_text());
    assert!(!file.is_image());
}

#[test]
fn test_image_detection() {
    let file = File::from_bytes("assets/logo.png".to_string(), vec![0, 1, 2], Some("image/png".to_string()));

    assert!(file.is_image());
    assert!(!file.is_text());
}

#[test]
fn file_size_and_kind_detection() {
    let file = File::new_at("notes/a.org".to_string(), Some("héllo".to_string()), None, Uuid::from_u128(1), 7);
    assert_eq!(file.size(), 6);
    assert!(file.is_text());
    assert_eq!(file.content(), Some("héllo"));
    assert_eq!(file.mime_type(), None);
    let mut pdf = File::from_bytes_at("doc.bin".to_string(), vec![1; 10], Some("application/pdf".to_string()), Uuid::from_u128(2), 3);
    assert!(pdf.is_pdf());
    assert_eq!(pdf.size(), 10);
    assert_eq!(pdf.content(), None);
    pdf.update_content_at("abc".to_string(), 9);
    assert_eq!(pdf.size(), 3);
    assert_eq!(pdf.content(), Some("abc"));
    let none = File::new("x.bin".to_string(), None, None);
    assert_eq!(none.size(), 0);
    assert!(!none.is_text() && !none.is_image() && !none.is_pdf());
}

// ── ScheduledTask ─────────────────────────────────────────────────

#[test]
fn scheduled_task_starts_enabled_and_unrun() {
    let t = ScheduledTask::new_at(
        "tree_rag_rebuild_index".to_string(),
        "0 3 * * *".to_string(),
        TaskType::RebuildIndex,
        500,
        Uuid::from_u128(1),
        100,
    );
    assert!(t.enabled);
    assert_eq!(t.last_run, None);
    assert_eq!(t.next_run, 500);
    assert_eq!(t.created_at, 100);
    assert_eq!(t.name(), "tree_rag_rebuild_index");
    let u = ScheduledTask::new("h".to_string(), "* * * * *".to_string(), TaskType::HealthCheck, 1);
    assert!(u.id != Uuid::nil());
}

#[test]
fn every_listed_timezone_validates() {
    for (id, _label) in UserSettings::common_timezones() {
        let settings = UserSettings { timezone: id.to_string(), ..Default::default() };
        assert!(settings.validate().is_ok(), "{} should validate", id);
    }
}
