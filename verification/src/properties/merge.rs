//! Key-level merge of property entries under last-write-wins.
//!
//! Keys present on one side only are kept; for a key on both sides the
//! incoming entry wins when it is later (or the only one with a timestamp),
//! and the existing entry wins otherwise, ties included. Neither input is
//! changed; the result is a fresh map.

use crate::properties::entry::{Mergeable, entry_view, replaced_by, DefaultPropertyEntry};
use crate::str_map::StrMap;
use crate::value_objects::PValue;
use vstd::prelude::*;

verus! {

broadcast use vstd::seq_lib::lemma_seq_contains_after_push;

/// The contents of a map of entries.
pub open spec fn entries_view(m: Map<Seq<char>, DefaultPropertyEntry>) -> Map<
    Seq<char>,
    (PValue, Option<i64>),
> {
    m.map_values(|e: DefaultPropertyEntry| entry_view(e))
}

/// Whether the entry under `k` comes from the incoming side.
pub open spec fn incoming_wins(
    e: Map<Seq<char>, DefaultPropertyEntry>,
    i: Map<Seq<char>, DefaultPropertyEntry>,
    k: Seq<char>,
) -> bool {
    i.contains_key(k) && (!e.contains_key(k) || replaced_by(e[k].updated_at, i[k].updated_at))
}

/// The last-write-wins merge of `e` (existing) with `i` (incoming).
pub open spec fn lww_merge(
    e: Map<Seq<char>, DefaultPropertyEntry>,
    i: Map<Seq<char>, DefaultPropertyEntry>,
) -> Map<Seq<char>, (PValue, Option<i64>)> {
    Map::new(
        |k: Seq<char>| e.contains_key(k) || i.contains_key(k),
        |k: Seq<char>|
            if incoming_wins(e, i, k) {
                entry_view(i[k])
            } else {
                entry_view(e[k])
            },
    )
}

/// A copy of a map of entries.
fn copy_entries(m: &StrMap<DefaultPropertyEntry>) -> (res: StrMap<DefaultPropertyEntry>)
    requires
        m.wf(),
    ensures
        res.wf(),
        res@.dom() == m@.dom(),
        forall|k: Seq<char>| #[trigger] res@.contains_key(k) ==> entry_view(res@[k]) == entry_view(m@[k]),
{
    proof {
        m.lemma_view();
    }
    let mut out: StrMap<DefaultPropertyEntry> = StrMap::new();
    let mut i: usize = 0;
    while i < m.len()
        invariant
            m.wf(),
            out.wf(),
            i <= m.size(),
            m.size() == m.keys_seq().len(),
            m.keys_seq().no_duplicates(),
            forall|j: int| 0 <= j < m.size() ==> #[trigger] m.keys_seq()[j] == m.key_at(j),
            forall|k: Seq<char>| m@.contains_key(k) <==> m.keys_seq().contains(k),
            forall|k: Seq<char>| #[trigger] out@.contains_key(k) <==> m.keys_seq().take(i as int).contains(k),
            forall|k: Seq<char>| #[trigger] out@.contains_key(k) ==> entry_view(out@[k]) == entry_view(m@[k]),
        decreases m.size() - i,
    {
        let k = m.key(i);
        let v = m.value(i);
        proof {
            assert(m.keys_seq().take(i + 1) =~= m.keys_seq().take(i as int).push(k@));
        }
        out.insert(k.clone(), v.clone());
        i = i + 1;
    }
    proof {
        assert(m.keys_seq().take(m.size() as int) =~= m.keys_seq());
        assert(out@.dom() =~= m@.dom());
    }
    out
}

/// Merges `incoming` into a copy of `existing` under last-write-wins.
pub fn merge_properties(
    existing: &StrMap<DefaultPropertyEntry>,
    incoming: StrMap<DefaultPropertyEntry>,
) -> (res: StrMap<DefaultPropertyEntry>)
    requires
        existing.wf(),
        incoming.wf(),
    ensures
        res.wf(),
        entries_view(res@) == lww_merge(existing@, incoming@),
{
    let mut result = copy_entries(existing);
    proof {
        incoming.lemma_view();
    }
    let ghost e = existing@;
    let ghost inc = incoming@;
    let ghost keys = incoming.keys_seq();
    let mut j: usize = 0;
    while j < incoming.len()
        invariant
            incoming.wf(),
            result.wf(),
            e == existing@,
            inc == incoming@,
            keys == incoming.keys_seq(),
            j <= incoming.size(),
            incoming.size() == keys.len(),
            keys.no_duplicates(),
            forall|q: int| 0 <= q < incoming.size() ==> #[trigger] keys[q] == incoming.key_at(q),
            forall|k: Seq<char>| inc.contains_key(k) <==> keys.contains(k),
            forall|k: Seq<char>| #[trigger]
                result@.contains_key(k) <==> (e.contains_key(k) || keys.take(j as int).contains(k)),
            forall|k: Seq<char>| #[trigger]
                result@.contains_key(k) ==> entry_view(result@[k]) == (if keys.take(j as int).contains(k)
                    && incoming_wins(e, inc, k) {
                    entry_view(inc[k])
                } else {
                    entry_view(e[k])
                }),
        decreases incoming.size() - j,
    {
        let k = incoming.key(j);
        let v = incoming.value(j);
        proof {
            assert(keys.take(j + 1) =~= keys.take(j as int).push(k@));
            assert(keys[j as int] == k@);
            assert(!keys.take(j as int).contains(k@)) by {
                if keys.take(j as int).contains(k@) {
                    let q = choose|q: int| 0 <= q < j && keys.take(j as int)[q] == k@;
                    assert(keys[q] == keys[j as int]);
                }
            }
            assert(inc.contains_key(k@));
        }
        let replace = match result.get(k.as_str()) {
            None => true,
            Some(ev) => ev.should_be_replaced_by(v),
        };
        if replace {
            result.insert(k.clone(), v.clone());
        }
        j = j + 1;
    }
    proof {
        assert(keys.take(incoming.size() as int) =~= keys);
        assert(entries_view(result@) =~= lww_merge(e, inc));
    }
    result
}

/// Merging with nothing incoming gives the existing entries back.
pub proof fn lemma_merge_empty_incoming(e: Map<Seq<char>, DefaultPropertyEntry>)
    ensures
        lww_merge(e, Map::empty()) == entries_view(e),
{
    assert(lww_merge(e, Map::empty()) =~= entries_view(e));
}

/// Merging a map with itself gives it back: equal timestamps keep the
/// existing entry.
pub proof fn lemma_merge_idempotent(e: Map<Seq<char>, DefaultPropertyEntry>)
    ensures
        lww_merge(e, e) == entries_view(e),
{
    assert(lww_merge(e, e) =~= entries_view(e));
}

/// Keys on one side only keep their entry; on both sides, a strictly later
/// incoming timestamp wins and an equal or earlier one does not.
pub proof fn lemma_merge_last_write_wins(
    e: Map<Seq<char>, DefaultPropertyEntry>,
    i: Map<Seq<char>, DefaultPropertyEntry>,
    k: Seq<char>,
)
    ensures
        e.contains_key(k) && !i.contains_key(k) ==> lww_merge(e, i)[k] == entry_view(e[k]),
        !e.contains_key(k) && i.contains_key(k) ==> lww_merge(e, i)[k] == entry_view(i[k]),
        (e.contains_key(k) && i.contains_key(k) && e[k].updated_at is Some
            && i[k].updated_at is Some) ==> lww_merge(e, i)[k] == (if i[k].updated_at->0
            > e[k].updated_at->0 {
            entry_view(i[k])
        } else {
            entry_view(e[k])
        }),
        lww_merge(e, i).dom() == e.dom().union(i.dom()),
{
    assert(lww_merge(e, i).dom() =~= e.dom().union(i.dom()));
}

} // verus!
