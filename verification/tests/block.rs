use quilt_domain::entities::block::{transition_times, Block, BlockCreate, BlockUpdate, ORDER_ONE};
use quilt_domain::str_map::StrMap;
use quilt_domain::value_objects::{BlockFormat, BlockType, TaskMarker, Uuid};

fn create_test_block(id: Uuid, page_id: Uuid, parent_id: Option<Uuid>) -> Block {
    Block {
        id,
        page_id,
        parent_id,
        order: ORDER_ONE,
        level: 1,
        format: BlockFormat::Markdown,
        block_type: BlockType::Paragraph,
        marker: None,
        priority: None,
        content: "Test block".to_string(),
        properties: StrMap::new(),
        refs: Vec::new(),
        tags: Vec::new(),
        scheduled: None,
        deadline: None,
        start_time: None,
        repeated: None,
        logbook: None,
        completed_at: None,
        cancelled_at: None,
        collapsed: false,
        created_at: 0,
        updated_at: 0,
    }
}

#[test]
fn test_block_creation() {
    let page_id = Uuid::new_v4();
    let create = BlockCreate {
        page_id,
        content: "Hello".to_string(),
        parent_id: None,
        order: ORDER_ONE,
        marker: Some(TaskMarker::Todo),
        format: BlockFormat::Markdown,
        block_type: BlockType::Paragraph,
        properties: StrMap::new(),
    };

    let block = Block::new(create).unwrap();
    assert_eq!(block.page_id, page_id);
    assert_eq!(block.content, "Hello");
    assert_eq!(block.marker, Some(TaskMarker::Todo));
    assert_eq!(block.block_type, BlockType::Paragraph);
    assert!(!block.is_done());
}

#[test]
fn test_circular_reference_detection() {
    let page_id = Uuid::new_v4();
    let block_a = create_test_block(Uuid::new_v4(), page_id, None);
    let block_b = create_test_block(Uuid::new_v4(), page_id, Some(block_a.id));
    let block_c = create_test_block(Uuid::new_v4(), page_id, Some(block_b.id));

    let all_blocks = vec![&block_a, &block_b, &block_c];

    assert!(!block_c.can_move_to(Some(block_a.id), &all_blocks.iter().map(|b| (*b).clone()).collect::<Vec<_>>()));

    let new_parent = Uuid::new_v4();
    assert!(block_c.can_move_to(Some(new_parent), &all_blocks.iter().map(|b| (*b).clone()).collect::<Vec<_>>()));
}

#[test]
fn test_block_done_auto_logbook_and_completed_at() {
    let create = BlockCreate {
        page_id: Uuid::new_v4(),
        content: "Task".to_string(),
        parent_id: None,
        order: ORDER_ONE,
        marker: None,
        format: BlockFormat::Markdown,
        block_type: BlockType::Paragraph,
        properties: StrMap::new(),
    };

    let mut block = Block::new(create).unwrap();
    assert!(block.logbook.is_none());
    assert!(block.completed_at.is_none());

    block
        .update(BlockUpdate { marker: Some(TaskMarker::Done), ..Default::default() })
        .unwrap();

    assert!(block.logbook.is_some(), "logbook should be set when marker becomes Done");
    assert!(block.completed_at.is_some(), "completed_at should be set when marker becomes Done");
    assert_eq!(block.completed_at, block.logbook, "completed_at and logbook should be equal when marker becomes Done");
}

#[test]
fn test_block_cancelled_auto_logbook_and_cancelled_at() {
    let create = BlockCreate {
        page_id: Uuid::new_v4(),
        content: "Task".to_string(),
        parent_id: None,
        order: ORDER_ONE,
        marker: None,
        format: BlockFormat::Markdown,
        block_type: BlockType::Paragraph,
        properties: StrMap::new(),
    };

    let mut block = Block::new(create).unwrap();
    assert!(block.logbook.is_none());
    assert!(block.cancelled_at.is_none());

    block
        .update(BlockUpdate { marker: Some(TaskMarker::Cancelled), ..Default::default() })
        .unwrap();

    assert!(block.logbook.is_some(), "logbook should be set when marker becomes Cancelled");
    assert!(block.cancelled_at.is_some(), "cancelled_at should be set when marker becomes Cancelled");
    assert_eq!(block.cancelled_at, block.logbook, "cancelled_at and logbook should be equal when marker becomes Cancelled");
    assert!(block.completed_at.is_none(), "completed_at should remain None when marker becomes Cancelled");
}

#[test]
fn test_block_done_to_cancelled_transition() {
    let create = BlockCreate {
        page_id: Uuid::new_v4(),
        content: "Task".to_string(),
        parent_id: None,
        order: ORDER_ONE,
        marker: None,
        format: BlockFormat::Markdown,
        block_type: BlockType::Paragraph,
        properties: StrMap::new(),
    };

    let mut block = Block::new(create).unwrap();

    block
        .update(BlockUpdate { marker: Some(TaskMarker::Done), ..Default::default() })
        .unwrap();

    assert!(block.completed_at.is_some());
    assert!(block.logbook.is_some());
    assert!(block.cancelled_at.is_none());

    block
        .update(BlockUpdate { marker: Some(TaskMarker::Cancelled), ..Default::default() })
        .unwrap();

    assert!(block.completed_at.is_none(), "completed_at should be cleared when transitioning from Done to Cancelled");
    assert!(block.cancelled_at.is_some(), "cancelled_at should be set when transitioning from Done to Cancelled");
    assert!(block.logbook.is_some());
    assert_eq!(block.completed_at, None, "completed_at should remain None after transition");
}

#[test]
fn test_block_cancelled_to_done_transition() {
    let create = BlockCreate {
        page_id: Uuid::new_v4(),
        content: "Task".to_string(),
        parent_id: None,
        order: ORDER_ONE,
        marker: None,
        format: BlockFormat::Markdown,
        block_type: BlockType::Paragraph,
        properties: StrMap::new(),
    };

    let mut block = Block::new(create).unwrap();

    block
        .update(BlockUpdate { marker: Some(TaskMarker::Cancelled), ..Default::default() })
        .unwrap();

    assert!(block.cancelled_at.is_some());
    assert!(block.logbook.is_some());
    assert!(block.completed_at.is_none());

    block
        .update(BlockUpdate { marker: Some(TaskMarker::Done), ..Default::default() })
        .unwrap();

    assert!(block.cancelled_at.is_none(), "cancelled_at should be cleared when transitioning from Cancelled to Done");
    assert!(block.completed_at.is_some(), "completed_at should be set when transitioning from Cancelled to Done");
    assert!(block.logbook.is_some());
}

#[test]
fn test_block_reopen_done_clears_completed_at() {
    let create = BlockCreate {
        page_id: Uuid::new_v4(),
        content: "Task".to_string(),
        parent_id: None,
        order: ORDER_ONE,
        marker: None,
        format: BlockFormat::Markdown,
        block_type: BlockType::Paragraph,
        properties: StrMap::new(),
    };

    let mut block = Block::new(create).unwrap();

    block
        .update(BlockUpdate { marker: Some(TaskMarker::Done), ..Default::default() })
        .unwrap();

    assert!(block.completed_at.is_some());

    block
        .update(BlockUpdate { marker: Some(TaskMarker::Todo), ..Default::default() })
        .unwrap();

    assert!(block.completed_at.is_none(), "completed_at should be cleared when reopening a Done block");
    assert!(block.logbook.is_none(), "logbook should be cleared when reopening a Done block");
}

#[test]
fn test_block_reopen_cancelled_clears_cancelled_at() {
    let create = BlockCreate {
        page_id: Uuid::new_v4(),
        content: "Task".to_string(),
        parent_id: None,
        order: ORDER_ONE,
        marker: None,
        format: BlockFormat::Markdown,
        block_type: BlockType::Paragraph,
        properties: StrMap::new(),
    };

    let mut block = Block::new(create).unwrap();

    block
        .update(BlockUpdate { marker: Some(TaskMarker::Cancelled), ..Default::default() })
        .unwrap();

    assert!(block.cancelled_at.is_some());

    block
        .update(BlockUpdate { marker: Some(TaskMarker::Todo), ..Default::default() })
        .unwrap();

    assert!(block.cancelled_at.is_none(), "cancelled_at should be cleared when reopening a Cancelled block");
    assert!(block.logbook.is_none(), "logbook should be cleared when reopening a Cancelled block");
}

#[test]
fn test_block_renmark_done_does_not_update_completed_at() {
    let create = BlockCreate {
        page_id: Uuid::new_v4(),
        content: "Task".to_string(),
        parent_id: None,
        order: ORDER_ONE,
        marker: None,
        format: BlockFormat::Markdown,
        block_type: BlockType::Paragraph,
        properties: StrMap::new(),
    };

    let mut block = Block::new_at(create, Uuid::new_v4(), 50);

    block.update_at(BlockUpdate { marker: Some(TaskMarker::Done), ..Default::default() }, 100).unwrap();

    let completed_at_first = block.completed_at;
    assert!(completed_at_first.is_some());

    block.update_at(BlockUpdate { marker: Some(TaskMarker::Done), ..Default::default() }, 200).unwrap();

    assert!(block.completed_at.is_some(), "completed_at should still be set");
    assert_eq!(block.completed_at, completed_at_first);
    assert_eq!(block.updated_at, 200);
}

#[test]
fn test_block_logbook_preserved_on_non_terminal_transition() {
    let create = BlockCreate {
        page_id: Uuid::new_v4(),
        content: "Task".to_string(),
        parent_id: None,
        order: ORDER_ONE,
        marker: None,
        format: BlockFormat::Markdown,
        block_type: BlockType::Paragraph,
        properties: StrMap::new(),
    };

    let mut block = Block::new(create).unwrap();

    block
        .update(BlockUpdate { marker: Some(TaskMarker::Todo), ..Default::default() })
        .unwrap();

    assert!(block.logbook.is_none());
    assert!(block.completed_at.is_none());
    assert!(block.cancelled_at.is_none());

    block
        .update(BlockUpdate { marker: Some(TaskMarker::Doing), ..Default::default() })
        .unwrap();

    assert!(block.logbook.is_none());
    assert!(block.completed_at.is_none());
    assert!(block.cancelled_at.is_none());

    block
        .update(BlockUpdate { marker: Some(TaskMarker::Later), ..Default::default() })
        .unwrap();

    assert!(block.logbook.is_none());
    assert!(block.completed_at.is_none());
    assert!(block.cancelled_at.is_none());
}

#[test]
fn test_new_block_defaults_to_paragraph() {
    let create = BlockCreate {
        page_id: Uuid::new_v4(),
        content: "Hello".to_string(),
        parent_id: None,
        order: ORDER_ONE,
        marker: None,
        format: BlockFormat::Markdown,
        block_type: BlockType::Paragraph,
        properties: StrMap::new(),
    };
    let block = Block::new(create).unwrap();
    assert_eq!(block.block_type, BlockType::Paragraph);
}

#[test]
fn test_block_create_default_has_paragraph_type() {
    let create = BlockCreate::default();
    assert_eq!(create.block_type, BlockType::Paragraph);
}

#[test]
fn test_block_update_changes_block_type() {
    let create = BlockCreate {
        page_id: Uuid::new_v4(),
        content: "Old heading".to_string(),
        parent_id: None,
        order: ORDER_ONE,
        marker: None,
        format: BlockFormat::Markdown,
        block_type: BlockType::Paragraph,
        properties: StrMap::new(),
    };
    let mut block = Block::new(create).unwrap();
    assert_eq!(block.block_type, BlockType::Paragraph);

    block.update(BlockUpdate { block_type: Some(BlockType::Heading1), ..Default::default() }).unwrap();
    assert_eq!(block.block_type, BlockType::Heading1);

    block.update(BlockUpdate { block_type: Some(BlockType::Code), ..Default::default() }).unwrap();
    assert_eq!(block.block_type, BlockType::Code);
}

#[test]
fn test_block_update_omitted_block_type_is_noop() {
    let create = BlockCreate {
        page_id: Uuid::new_v4(),
        content: "x".to_string(),
        parent_id: None,
        order: ORDER_ONE,
        marker: None,
        format: BlockFormat::Markdown,
        block_type: BlockType::Quote,
        properties: StrMap::new(),
    };
    let mut block = Block::new(create).unwrap();
    let original = block.block_type;

    block.update(BlockUpdate { content: Some("new content".to_string()), ..Default::default() }).unwrap();

    assert_eq!(block.block_type, original);
    assert_eq!(block.content, "new content");
}


#[test]
fn done_at_a_given_time_stamps_both_fields() {
    let mut block = Block::new_at(BlockCreate::default(), Uuid::from_u128(1), 10);
    assert_eq!(block.created_at, 10);
    assert_eq!(block.updated_at, 10);
    block.update_at(BlockUpdate { marker: Some(TaskMarker::Done), ..Default::default() }, 42).unwrap();
    assert_eq!(block.completed_at, Some(42));
    assert_eq!(block.logbook, Some(42));
    assert!(block.is_done());
    assert!(block.is_task());
}

#[test]
fn moving_under_a_new_parent_sets_level_two() {
    let mut block = Block::new_at(BlockCreate::default(), Uuid::from_u128(1), 0);
    assert_eq!(block.level, 1);
    block.update_at(BlockUpdate { parent_id: Some(Some(Uuid::from_u128(9))), ..Default::default() }, 1).unwrap();
    assert_eq!(block.parent_id, Some(Uuid::from_u128(9)));
    assert_eq!(block.level, 2);
    block.update_at(BlockUpdate { parent_id: Some(None), ..Default::default() }, 2).unwrap();
    assert_eq!(block.level, 1);
}

#[test]
fn refs_and_tags_are_kept_once() {
    let mut block = Block::new_at(BlockCreate::default(), Uuid::from_u128(1), 0);
    let r = Uuid::from_u128(5);
    block.add_ref_at(r, 1);
    block.add_ref_at(r, 2);
    assert_eq!(block.refs, vec![r]);
    block.remove_ref_at(r, 3);
    assert!(block.refs.is_empty());
    block.add_tag_at("rust", 4);
    block.add_tag_at("rust", 5);
    assert_eq!(block.tags, vec!["rust".to_string()]);
}

#[test]
fn path_lists_ancestors_from_the_root() {
    let page = Uuid::from_u128(100);
    let a = create_test_block(Uuid::from_u128(1), page, None);
    let b = create_test_block(Uuid::from_u128(2), page, Some(a.id));
    let c = create_test_block(Uuid::from_u128(3), page, Some(b.id));
    let all = vec![a.clone(), b.clone(), c.clone()];
    assert_eq!(c.get_path(&all), vec![a.id, b.id, c.id]);
    assert!(c.is_descendant_of(a.id, &all));
    assert!(!a.is_descendant_of(c.id, &all));
    assert!(!c.can_move_to(Some(c.id), &all));
}

#[test]
fn marker_transition_state_machine() {
    let done = Some(TaskMarker::Done);
    let cancelled = Some(TaskMarker::Cancelled);
    let todo = Some(TaskMarker::Todo);
    // Todo -> Done stamps completion and logbook, keeps a stale cancellation.
    assert_eq!(transition_times(todo, done, 50, None, Some(3), None), (Some(50), Some(3), Some(50)));
    // Cancelled -> Done clears the cancellation.
    assert_eq!(transition_times(cancelled, done, 60, None, Some(3), Some(3)), (Some(60), None, Some(60)));
    // Done -> Cancelled clears the completion.
    assert_eq!(transition_times(done, cancelled, 70, Some(5), None, Some(5)), (None, Some(70), Some(70)));
    // Done -> Todo clears completion and logbook.
    assert_eq!(transition_times(done, todo, 80, Some(5), Some(9), Some(5)), (None, Some(9), None));
    // Cancelled -> None clears cancellation and logbook.
    assert_eq!(transition_times(cancelled, None, 90, Some(1), Some(7), Some(7)), (Some(1), None, None));
    // Todo -> Doing keeps everything.
    assert_eq!(
        transition_times(todo, Some(TaskMarker::Doing), 99, Some(1), Some(2), Some(3)),
        (Some(1), Some(2), Some(3))
    );
}

#[test]
fn move_refuses_ancestors_descendants_and_self() {
    let page = Uuid::from_u128(100);
    let a = create_test_block(Uuid::from_u128(1), page, None);
    let b = create_test_block(Uuid::from_u128(2), page, Some(a.id));
    let c = create_test_block(Uuid::from_u128(3), page, Some(b.id));
    let all = vec![a.clone(), b.clone(), c.clone()];
    let fresh = Uuid::from_u128(99);
    assert!(!c.can_move_to(Some(a.id), &all));
    assert!(!c.can_move_to(Some(b.id), &all));
    assert!(c.can_move_to(Some(fresh), &all));
    assert!(!c.can_move_to(Some(c.id), &all));
    assert!(c.can_move_to(None, &all));
    assert!(!a.can_move_to(Some(c.id), &all));
}
