use quilt_domain::references::edge_type::EdgeType;
use quilt_domain::references::ref_::Ref;
use quilt_domain::references::ref_index::RefIndex;
use quilt_domain::references::ref_type::RefType;
use quilt_domain::value_objects::Uuid;
use std::collections::HashSet;

// ── Ref ───────────────────────────────────────────────────────────

#[test]
fn test_ref_creation() {
    let target = Uuid::new_v4();
    let r = Ref::new(target, RefType::BlockRef);
    assert_eq!(r.target, target);
    assert_eq!(r.ref_type, RefType::BlockRef);
}

#[test]
fn test_ref_equality() {
    let target = Uuid::new_v4();
    let a = Ref::new(target, RefType::PageRef);
    let b = Ref::new(target, RefType::PageRef);
    assert_eq!(a, b);
}

#[test]
fn test_ref_inequality() {
    let target_a = Uuid::new_v4();
    let target_b = Uuid::new_v4();
    let a = Ref::new(target_a, RefType::PageRef);
    let b = Ref::new(target_b, RefType::PageRef);
    assert_ne!(a, b);
}

#[test]
fn test_ref_type_inequality() {
    let target = Uuid::new_v4();
    let a = Ref::new(target, RefType::PageRef);
    let b = Ref::new(target, RefType::BlockRef);
    assert_ne!(a, b);
}

#[test]
fn test_ref_hash() {
    let target = Uuid::new_v4();
    let r = Ref::new(target, RefType::Tag);
    let mut set = HashSet::new();
    set.insert(r);
    assert!(set.contains(&r));
}

// ── RefType ───────────────────────────────────────────────────────

#[test]
fn test_ref_type_roundtrip() {
    for variant in &[RefType::PageRef, RefType::BlockRef, RefType::Tag, RefType::Alias] {
        let s = variant.as_str();
        let parsed = RefType::from_str(s).unwrap();
        assert_eq!(*variant, parsed);
    }
}

#[test]
fn test_ref_type_invalid() {
    assert!(RefType::from_str("invalid").is_none());
    assert!(RefType::from_str("").is_none());
}

#[test]
fn test_ref_type_display() {
    assert_eq!(RefType::PageRef.to_display_string(), "page_ref");
    assert_eq!(RefType::BlockRef.to_display_string(), "block_ref");
    assert_eq!(RefType::Tag.to_display_string(), "tag");
    assert_eq!(RefType::Alias.to_display_string(), "alias");
}

// ── RefIndex ──────────────────────────────────────────────────────

fn make_uuids(n: usize) -> Vec<Uuid> {
    (0..n).map(|_| Uuid::new_v4()).collect()
}

#[test]
fn test_add_ref_forward_and_reverse() {
    let uuids = make_uuids(2);
    let (source, target) = (uuids[0], uuids[1]);

    let mut index = RefIndex::new();
    index.add_ref(source, target, RefType::BlockRef);

    let forward = index.get_forward_refs(source);
    assert_eq!(forward.len(), 1);
    assert_eq!(forward[0], (target, RefType::BlockRef));

    let backlinks = index.get_backlinks(target);
    assert_eq!(backlinks.len(), 1);
    assert_eq!(backlinks[0], (source, RefType::BlockRef));
}

#[test]
fn test_remove_ref() {
    let uuids = make_uuids(2);
    let (source, target) = (uuids[0], uuids[1]);

    let mut index = RefIndex::new();
    index.add_ref(source, target, RefType::PageRef);
    assert_eq!(index.backlink_count(target), 1);

    index.remove_ref(source, target, RefType::PageRef);
    assert_eq!(index.backlink_count(target), 0);
    assert!(index.get_forward_refs(source).is_empty());
}

#[test]
fn test_remove_ref_does_not_affect_other_types() {
    let uuids = make_uuids(2);
    let (source, target) = (uuids[0], uuids[1]);

    let mut index = RefIndex::new();
    index.add_ref(source, target, RefType::PageRef);
    index.add_ref(source, target, RefType::BlockRef);
    assert_eq!(index.forward_count(source), 2);

    index.remove_ref(source, target, RefType::PageRef);
    assert_eq!(index.forward_count(source), 1);

    let forward = index.get_forward_refs(source);
    assert_eq!(forward[0], (target, RefType::BlockRef));
}

#[test]
fn test_remove_all_from_source() {
    let uuids = make_uuids(4);
    let (source, t1, t2) = (uuids[0], uuids[1], uuids[2]);

    let mut index = RefIndex::new();
    index.add_ref(source, t1, RefType::BlockRef);
    index.add_ref(source, t2, RefType::PageRef);
    assert_eq!(index.forward_count(source), 2);

    index.remove_all_from_source(source);
    assert_eq!(index.forward_count(source), 0);
    assert_eq!(index.backlink_count(t1), 0);
    assert_eq!(index.backlink_count(t2), 0);
}

#[test]
fn test_remove_all_to_target() {
    let uuids = make_uuids(4);
    let (s1, s2, target) = (uuids[0], uuids[1], uuids[2]);

    let mut index = RefIndex::new();
    index.add_ref(s1, target, RefType::BlockRef);
    index.add_ref(s2, target, RefType::PageRef);
    assert_eq!(index.backlink_count(target), 2);

    index.remove_all_to_target(target);
    assert_eq!(index.backlink_count(target), 0);
    assert!(index.get_forward_refs(s1).is_empty());
    assert!(index.get_forward_refs(s2).is_empty());
}

#[test]
fn test_duplicate_add_is_idempotent() {
    let uuids = make_uuids(2);
    let (source, target) = (uuids[0], uuids[1]);

    let mut index = RefIndex::new();
    index.add_ref(source, target, RefType::Tag);
    index.add_ref(source, target, RefType::Tag);

    let forward = index.get_forward_refs(source);
    assert_eq!(forward.len(), 1);

    let backlinks = index.get_backlinks(target);
    assert_eq!(backlinks.len(), 1);
}

#[test]
fn test_empty_backlinks() {
    let target = Uuid::new_v4();
    let index = RefIndex::new();

    let backlinks = index.get_backlinks(target);
    assert!(backlinks.is_empty());
    assert_eq!(index.backlink_count(target), 0);
}

#[test]
fn test_empty_forward_refs() {
    let source = Uuid::new_v4();
    let index = RefIndex::new();

    let forward = index.get_forward_refs(source);
    assert!(forward.is_empty());
    assert_eq!(index.forward_count(source), 0);
}

#[test]
fn test_clear() {
    let uuids = make_uuids(3);
    let mut index = RefIndex::new();
    index.add_ref(uuids[0], uuids[1], RefType::Alias);
    index.add_ref(uuids[1], uuids[2], RefType::PageRef);

    assert!(!index.is_empty());
    index.clear();
    assert!(index.is_empty());
    assert_eq!(index.len(), 0);
}

#[test]
fn test_multiple_sources_referencing_same_target() {
    let uuids = make_uuids(4);
    let target = uuids[0];

    let mut index = RefIndex::new();
    index.add_ref(uuids[1], target, RefType::PageRef);
    index.add_ref(uuids[2], target, RefType::BlockRef);
    index.add_ref(uuids[3], target, RefType::Tag);

    assert_eq!(index.backlink_count(target), 3);

    let backlinks = index.get_backlinks(target);
    assert_eq!(backlinks.len(), 3);

    let sources: HashSet<Uuid> = backlinks.iter().map(|(s, _)| *s).collect();
    assert!(sources.contains(&uuids[1]));
    assert!(sources.contains(&uuids[2]));
    assert!(sources.contains(&uuids[3]));
}

#[test]
fn test_backlinks_are_o1_not_scanning_all_entries() {
    let uuids = make_uuids(100);

    let mut index = RefIndex::new();
    let source = uuids[0];
    for i in 1..100 {
        index.add_ref(source, uuids[i], RefType::PageRef);
    }

    let backlinks = index.get_backlinks(uuids[50]);
    assert_eq!(backlinks.len(), 1);
    assert_eq!(backlinks[0].0, source);
}

#[test]
fn test_ref_index_is_send() {
    fn assert_send<T: Send>() {}
    assert_send::<RefIndex>();
}

#[test]
fn removing_a_new_ref_restores_the_index() {
    let a = Uuid::from_u128(1);
    let b = Uuid::from_u128(2);
    let c = Uuid::from_u128(3);
    let mut index = RefIndex::new();
    index.add_ref(a, b, RefType::PageRef);
    index.add_ref(b, c, RefType::BlockRef);
    index.add_ref(a, c, RefType::Tag);
    index.remove_ref(a, c, RefType::Tag);
    assert_eq!(index.len(), 2);
    assert_eq!(index.get_forward_refs(a), vec![(b, RefType::PageRef)]);
    assert_eq!(index.get_backlinks(c), vec![(b, RefType::BlockRef)]);
}

// ── EdgeType ──────────────────────────────────────────────────────

#[test]
fn edge_type_names() {
    assert_eq!(EdgeType::PageRef.to_display_string(), "page_ref");
    assert_eq!(EdgeType::Backlink.to_display_string(), "backlink");
    assert_eq!(EdgeType::Custom("cites".to_string()).to_display_string(), "custom:cites");
    assert!(EdgeType::Parent.is_unit());
    assert!(!EdgeType::Custom("x".to_string()).is_unit());
}
