use quilt_domain::events::domain_events::{
    AppEvent, BlockCreated, BlockDeleted, BlockMoved, BlockUpdated, DomainEvent, FileChanged,
    FileEventType, PageCreated, PageDeleted, PageRenamed,
};
use quilt_domain::value_objects::Uuid;

#[test]
fn block_events_name_and_entity() {
    let b = Uuid::from_u128(7);
    let p = Uuid::from_u128(9);
    let created = BlockCreated { block_id: b, page_id: p, parent_id: None };
    assert_eq!(created.event_name(), "block.created");
    assert_eq!(created.entity_id(), b);
    let updated = BlockUpdated { block_id: b, changed_fields: vec!["content", "marker"] };
    assert_eq!(updated.event_name(), "block.updated");
    assert_eq!(updated.entity_id(), b);
    let deleted = BlockDeleted { block_id: b, page_id: p };
    assert_eq!(deleted.event_name(), "block.deleted");
    assert_eq!(deleted.entity_id(), b);
    let moved = BlockMoved {
        block_id: b,
        old_parent_id: None,
        new_parent_id: Some(p),
        old_order: 1.0f64.to_bits(),
        new_order: 2.5f64.to_bits(),
    };
    assert_eq!(moved.event_name(), "block.moved");
    assert_eq!(moved.entity_id(), b);
    assert_eq!(f64::from_bits(moved.new_order), 2.5);
}

#[test]
fn page_events_name_and_entity() {
    let p = Uuid::from_u128(3);
    let created = PageCreated { page_id: p, name: "notes".to_string(), is_journal: false };
    assert_eq!(created.event_name(), "page.created");
    assert_eq!(created.entity_id(), p);
    let renamed = PageRenamed { page_id: p, old_name: "a".to_string(), new_name: "b".to_string() };
    assert_eq!(renamed.event_name(), "page.renamed");
    assert_eq!(renamed.entity_id(), p);
    let deleted = PageDeleted { page_id: p, name: "b".to_string() };
    assert_eq!(deleted.event_name(), "page.deleted");
    assert_eq!(deleted.entity_id(), p);
}

#[test]
fn app_event_carries_file_change() {
    let ev = AppEvent::FileChanged(FileChanged {
        path: "pages/a.md".to_string(),
        event_type: FileEventType::Modified,
        timestamp: 1_700_000_000_000,
    });
    match ev {
        AppEvent::FileChanged(fc) => {
            assert_eq!(fc.event_type, FileEventType::Modified);
            assert_eq!(fc.path, "pages/a.md");
        }
        _ => panic!("expected a file change"),
    }
}
