use quilt_domain::entities::journal::Journal;
use quilt_domain::entities::page::{Page, PageCreate};
use quilt_domain::errors::domain_error::DomainError;
use quilt_domain::value_objects::{BlockFormat, JournalDay};

fn sample_journal_day() -> JournalDay {
    JournalDay::from_ymd(2026, 6, 2).unwrap()
}

fn sample_format() -> BlockFormat {
    BlockFormat::Markdown
}

fn sample_journal_format() -> String {
    "yyyy-MM-dd".to_string()
}

// ── Page ─────────────────────────────────────────────────────────

#[test]
fn test_page_creation() {
    let create = PageCreate {
        name: "My Test Page".to_string(),
        title: Some("My Test Page".to_string()),
        namespace_id: None,
        journal_day: None,
        format: BlockFormat::Markdown,
        file_id: None,
    };

    let page = Page::new(create).unwrap();
    assert_eq!(page.name, "my test page");
    assert!(!page.journal);
}

#[test]
fn test_page_name_normalization() {
    let create = PageCreate {
        name: "UPPERCASE".to_string(),
        title: None,
        namespace_id: None,
        journal_day: None,
        format: BlockFormat::Markdown,
        file_id: None,
    };

    let page = Page::new(create).unwrap();
    assert_eq!(page.name, "uppercase");
}

#[test]
fn test_invalid_page_names() {
    let invalid_names = vec!["", "/slash", "#hash", "12345"];

    for name in invalid_names {
        let create = PageCreate {
            name: name.to_string(),
            title: None,
            namespace_id: None,
            journal_day: None,
            format: BlockFormat::Markdown,
            file_id: None,
        };

        assert!(Page::new(create).is_err());
    }
}

#[test]
fn test_journal_page() {
    let day = JournalDay::from_ymd(2026, 5, 2).unwrap();
    let page = Page::new_journal(day, BlockFormat::Markdown).unwrap();

    assert!(page.journal);
    assert!(page.journal_day.is_some());
    assert_eq!(page.name, "2026-05-02");
}

// ── Journal ──────────────────────────────────────────────────────

#[test]
fn test_new_journal_succeeds() {
    let day = sample_journal_day();
    let journal = Journal::new(day, sample_format(), &sample_journal_format())
        .expect("should create journal");
    assert_eq!(journal.day(), day);
}

#[test]
fn test_new_journal_has_correct_name() {
    let day = sample_journal_day();
    let journal = Journal::new(day, sample_format(), &sample_journal_format()).unwrap();
    assert_eq!(journal.name(), "2026-06-02");
}

#[test]
fn test_page_returns_inner_page() {
    let day = sample_journal_day();
    let journal = Journal::new(day, sample_format(), &sample_journal_format()).unwrap();
    let page = journal.page();
    assert_eq!(page.name, "2026-06-02");
}

#[test]
fn test_day_returns_journal_day() {
    let day = sample_journal_day();
    let journal = Journal::new(day, sample_format(), &sample_journal_format()).unwrap();
    assert_eq!(journal.day(), day);
}

#[test]
fn test_name_is_same_as_page_name() {
    let day = sample_journal_day();
    let journal = Journal::new(day, sample_format(), &sample_journal_format()).unwrap();
    assert_eq!(journal.name(), journal.page().name.as_str());
}

#[test]
fn test_deref_gives_page_behavior() {
    let day = sample_journal_day();
    let journal = Journal::new(day, sample_format(), &sample_journal_format()).unwrap();
    assert_eq!(journal.name, "2026-06-02");
    assert_eq!(journal.format, sample_format());
}

#[test]
fn test_from_journal_into_page() {
    let day = sample_journal_day();
    let journal = Journal::new(day, sample_format(), &sample_journal_format()).unwrap();
    let original_name = journal.name().to_string();
    let page: Page = journal.into();
    assert_eq!(page.name, original_name);
}

#[test]
fn test_try_from_page_valid_journal() {
    let day = sample_journal_day();
    let page = Page::new_journal(day, sample_format()).unwrap();
    let journal = Journal::try_from(page).expect("page should be convertible to journal");
    assert_eq!(journal.day(), day);
}

#[test]
fn test_try_from_page_not_a_journal() {
    let page = Page::new(PageCreate {
        name: "Regular Page".to_string(),
        title: None,
        namespace_id: None,
        journal_day: None,
        format: BlockFormat::Markdown,
        file_id: None,
    })
    .unwrap();
    let result = Journal::try_from(page);
    assert!(result.is_err());
    match result.unwrap_err() {
        DomainError::InvalidPageType(msg) => {
            assert!(msg.contains("not a journal"));
        }
        other => panic!("expected InvalidPageType, got {:?}", other),
    }
}

#[test]
fn test_journals_with_same_day_are_independent() {
    let day = sample_journal_day();
    let j1 = Journal::new(day, sample_format(), &sample_journal_format()).unwrap();
    let j2 = Journal::new(day, sample_format(), &sample_journal_format()).unwrap();
    assert_ne!(j1.page().id, j2.page().id);
    assert_eq!(j1.day(), j2.day());
}

#[test]
fn test_different_journal_formats_produce_different_titles() {
    let day = sample_journal_day();
    let j1 = Journal::new(day, sample_format(), &"MM-dd-yyyy".to_string()).unwrap();
    let j2 = Journal::new(day, sample_format(), &"yyyy/MM/dd".to_string()).unwrap();
    assert_eq!(j1.name(), j2.name());
    assert_ne!(j1.page().title, j2.page().title);
}
