//! The checks a class puts on blocks and on inheritance links. Looking up
//! ancestors and required properties is the repositories' business; these
//! functions take what they returned.

use crate::entities::block::Block;
use crate::errors::domain_error::DomainError;
use crate::str_map::StrMap;
use crate::text::{lowercase_of, seq_contains_run, str_contains, to_lowercase};
use crate::value_objects::{hyphenated, PropertyValue, Uuid};
use vstd::prelude::*;

verus! {

broadcast use vstd::seq_lib::lemma_seq_contains_after_push;

/// Whether the keys satisfy required property `id`: one of them is the
/// id's text, or holds it when both are lower-cased.
pub open spec fn has_required(keys: Seq<Seq<char>>, id: Uuid) -> bool {
    keys.contains(hyphenated(id.value)) || exists|i: int|
        0 <= i < keys.len() && seq_contains_run(
            lowercase_of(#[trigger] keys[i]),
            lowercase_of(hyphenated(id.value)),
        )
}

/// Whether the property map satisfies required property `id`.
fn has_required_exec(props: &StrMap<PropertyValue>, id: Uuid) -> (res: bool)
    requires
        props.wf(),
    ensures
        res == has_required(props.keys_seq(), id),
{
    proof {
        props.lemma_view();
    }
    let idt = id.to_string();
    if props.contains_key(idt.as_str()) {
        return true;
    }
    let lid = to_lowercase(idt.as_str());
    let mut i: usize = 0;
    while i < props.len()
        invariant
            props.wf(),
            props.size() == props.keys_seq().len(),
            forall|j: int| 0 <= j < props.size() ==> #[trigger] props.keys_seq()[j] == props.key_at(j),
            i <= props.size(),
            lid@ == lowercase_of(hyphenated(id.value)),
            forall|j: int|
                0 <= j < i ==> !seq_contains_run(
                    lowercase_of(#[trigger] props.keys_seq()[j]),
                    lowercase_of(hyphenated(id.value)),
                ),
        decreases props.size() - i,
    {
        let k = props.key(i);
        let lk = to_lowercase(k.as_str());
        if str_contains(lk.as_str(), lid.as_str()) {
            assert(props.keys_seq()[i as int] == k@);
            return true;
        }
        i = i + 1;
    }
    false
}

/// Checks that the block has every required property, in order; the first
/// one missing gives `MissingRequiredProperty`.
pub fn check_required_properties(block: &Block, required: &Vec<Uuid>) -> (res: Result<(), DomainError>)
    requires
        block.properties.wf(),
    ensures
        res is Ok <==> forall|i: int|
            0 <= i < required@.len() ==> has_required(block.properties.keys_seq(), #[trigger] required@[i]),
        res matches Err(e) ==> exists|i: int|
            0 <= i < required@.len() && !has_required(block.properties.keys_seq(), #[trigger] required@[i])
                && e == (DomainError::MissingRequiredProperty { property_id: required@[i] })
                && forall|q: int| 0 <= q < i ==> has_required(block.properties.keys_seq(), #[trigger] required@[q]),
{
    let mut i: usize = 0;
    while i < required.len()
        invariant
            block.properties.wf(),
            i <= required@.len(),
            forall|q: int| 0 <= q < i ==> has_required(block.properties.keys_seq(), #[trigger] required@[q]),
        decreases required.len() - i,
    {
        if !has_required_exec(&block.properties, required[i]) {
            return Err(DomainError::MissingRequiredProperty { property_id: required[i] });
        }
        i = i + 1;
    }
    Ok(())
}

/// The message of an inheritance link that closes a cycle.
pub open spec fn cycle_message(parent: Uuid, child: Uuid) -> Seq<char> {
    "Adding "@ + hyphenated(parent.value) + " as parent of "@ + hyphenated(child.value)
        + " would create a circular inheritance"@
}

/// Checks that `child` may extend `parent` without closing a cycle, given
/// `parent`'s ancestry (the classes `parent` already extends, itself
/// included): a class cannot extend itself, nor a class that already
/// extends it.
pub fn check_inheritance_cycle(child_id: Uuid, parent_id: Uuid, ancestors: &Vec<Uuid>) -> (res: Result<
    (),
    DomainError,
>)
    ensures
        child_id == parent_id ==> (res matches Err(DomainError::CircularInheritance { class_id, message })
            && class_id == child_id && message@ == "A class cannot extend itself"@),
        child_id != parent_id && ancestors@.contains(child_id) ==> (res matches Err(
            DomainError::CircularInheritance { class_id, message },
        ) && class_id == child_id && message@ == cycle_message(parent_id, child_id)),
        child_id != parent_id && !ancestors@.contains(child_id) ==> res is Ok,
{
    if child_id.value == parent_id.value {
        return Err(
            DomainError::CircularInheritance {
                class_id: child_id,
                message: "A class cannot extend itself".to_owned(),
            },
        );
    }
    let mut i: usize = 0;
    while i < ancestors.len()
        invariant
            child_id != parent_id,
            i <= ancestors@.len(),
            forall|q: int| 0 <= q < i ==> ancestors@[q] != child_id,
        decreases ancestors.len() - i,
    {
        if ancestors[i].value == child_id.value {
            assert(ancestors@[i as int] == child_id);
            let mut m = "Adding ".to_owned();
            let p = parent_id.to_string();
            m.append(p.as_str());
            m.append(" as parent of ");
            let c = child_id.to_string();
            m.append(c.as_str());
            m.append(" would create a circular inheritance");
            return Err(DomainError::CircularInheritance { class_id: child_id, message: m });
        }
        i = i + 1;
    }
    Ok(())
}

/// The required properties of some classes, each once, in discovery order:
/// for each class in turn, for each of its ancestors not met before (the
/// class itself first), the ancestor's required properties not met before.
/// Ancestors and properties share one record of what was met.
pub open spec fn collect_required(
    ancestries: Seq<Seq<Uuid>>,
    required_of: spec_fn(Uuid) -> Seq<Uuid>,
) -> (Seq<Uuid>, Seq<Uuid>)
    decreases ancestries.len(),
{
    if ancestries.len() == 0 {
        (Seq::empty(), Seq::empty())
    } else {
        let prev = collect_required(ancestries.drop_last(), required_of);
        visit_ancestors(prev.0, prev.1, ancestries.last(), required_of)
    }
}

/// Visits ancestors in order (see `collect_required`); the state is what was
/// met and the properties found.
pub open spec fn visit_ancestors(
    seen: Seq<Uuid>,
    found: Seq<Uuid>,
    ancestors: Seq<Uuid>,
    required_of: spec_fn(Uuid) -> Seq<Uuid>,
) -> (Seq<Uuid>, Seq<Uuid>)
    decreases ancestors.len(),
{
    if ancestors.len() == 0 {
        (seen, found)
    } else {
        let prev = visit_ancestors(seen, found, ancestors.drop_last(), required_of);
        let a = ancestors.last();
        if prev.0.contains(a) {
            prev
        } else {
            visit_props(prev.0.push(a), prev.1, required_of(a))
        }
    }
}

/// Adds properties not met before (see `collect_required`).
pub open spec fn visit_props(seen: Seq<Uuid>, found: Seq<Uuid>, props: Seq<Uuid>) -> (Seq<Uuid>, Seq<Uuid>)
    decreases props.len(),
{
    if props.len() == 0 {
        (seen, found)
    } else {
        let prev = visit_props(seen, found, props.drop_last());
        let p = props.last();
        if prev.0.contains(p) {
            prev
        } else {
            (prev.0.push(p), prev.1.push(p))
        }
    }
}

/// Visiting properties: what was met stays met, every visited property is
/// met afterwards, and whatever is newly met is found, and found only from
/// the visited properties.
proof fn lemma_visit_props(seen: Seq<Uuid>, found: Seq<Uuid>, props: Seq<Uuid>)
    ensures
        ({
            let r = visit_props(seen, found, props);
            &&& forall|x: Uuid| seen.contains(x) ==> #[trigger] r.0.contains(x)
            &&& forall|x: Uuid| found.contains(x) ==> #[trigger] r.1.contains(x)
            &&& forall|x: Uuid| props.contains(x) ==> #[trigger] r.0.contains(x)
            &&& forall|x: Uuid| #[trigger] r.0.contains(x) ==> seen.contains(x) || r.1.contains(x)
            &&& forall|x: Uuid| #[trigger] r.1.contains(x) ==> found.contains(x) || props.contains(x)
        }),
    decreases props.len(),
{
    if props.len() > 0 {
        let init = props.drop_last();
        let p = props.last();
        lemma_visit_props(seen, found, init);
        let prev = visit_props(seen, found, init);
        assert(props =~= init.push(p));
        assert forall|x: Uuid| props.contains(x) implies (init.contains(x) || x == p) by {
            let k = choose|k: int| 0 <= k < props.len() && props[k] == x;
            if k < init.len() {
                assert(init[k] == x);
            }
        }
        assert forall|x: Uuid| init.contains(x) implies props.contains(x) by {
            let k = choose|k: int| 0 <= k < init.len() && init[k] == x;
            assert(props[k] == x);
        }
        assert(props[props.len() - 1] == p);
        if !prev.0.contains(p) {
            let s2 = prev.0.push(p);
            let f2 = prev.1.push(p);
            assert forall|x: Uuid| s2.contains(x) <==> (prev.0.contains(x) || x == p) by {
                if s2.contains(x) {
                    let k = choose|k: int| 0 <= k < s2.len() && s2[k] == x;
                    if k < prev.0.len() {
                        assert(prev.0[k] == x);
                    }
                }
                if prev.0.contains(x) {
                    let k = choose|k: int| 0 <= k < prev.0.len() && prev.0[k] == x;
                    assert(s2[k] == x);
                }
                if x == p {
                    assert(s2[prev.0.len() as int] == x);
                }
            }
            assert forall|x: Uuid| f2.contains(x) <==> (prev.1.contains(x) || x == p) by {
                if f2.contains(x) {
                    let k = choose|k: int| 0 <= k < f2.len() && f2[k] == x;
                    if k < prev.1.len() {
                        assert(prev.1[k] == x);
                    }
                }
                if prev.1.contains(x) {
                    let k = choose|k: int| 0 <= k < prev.1.len() && prev.1[k] == x;
                    assert(f2[k] == x);
                }
                if x == p {
                    assert(f2[prev.1.len() as int] == x);
                }
            }
        }
    }
}

/// What a visit keeps true: everything found was met and is a property of
/// some ancestor (`is_prop`); everything met was found, or is an ancestor
/// (`is_anc`) whose required properties were all met.
pub open spec fn visit_invariant(
    seen: Seq<Uuid>,
    found: Seq<Uuid>,
    required_of: spec_fn(Uuid) -> Seq<Uuid>,
    is_anc: spec_fn(Uuid) -> bool,
    is_prop: spec_fn(Uuid) -> bool,
) -> bool {
    &&& forall|x: Uuid| #[trigger] found.contains(x) ==> seen.contains(x) && is_prop(x)
    &&& forall|x: Uuid| #[trigger] seen.contains(x) ==> found.contains(x) || (is_anc(x) && forall|
        p: Uuid,
    | #[trigger] required_of(x).contains(p) ==> seen.contains(p))
}

/// Visiting ancestors keeps the invariant and meets every required
/// property of every visited ancestor, provided no ancestor is a property.
proof fn lemma_visit_ancestors(
    seen: Seq<Uuid>,
    found: Seq<Uuid>,
    ancestors: Seq<Uuid>,
    required_of: spec_fn(Uuid) -> Seq<Uuid>,
    is_anc: spec_fn(Uuid) -> bool,
    is_prop: spec_fn(Uuid) -> bool,
)
    requires
        visit_invariant(seen, found, required_of, is_anc, is_prop),
        forall|x: Uuid| #[trigger] is_anc(x) ==> !is_prop(x),
        forall|a: Uuid, p: Uuid| is_anc(a) && #[trigger] required_of(a).contains(p) ==> is_prop(p),
        forall|a: Uuid| ancestors.contains(a) ==> #[trigger] is_anc(a),
    ensures
        ({
            let r = visit_ancestors(seen, found, ancestors, required_of);
            &&& visit_invariant(r.0, r.1, required_of, is_anc, is_prop)
            &&& forall|x: Uuid| seen.contains(x) ==> #[trigger] r.0.contains(x)
            &&& forall|a: Uuid, p: Uuid|
                ancestors.contains(a) && #[trigger] required_of(a).contains(p) ==> r.0.contains(p)
        }),
    decreases ancestors.len(),
{
    if ancestors.len() > 0 {
        let init = ancestors.drop_last();
        let a = ancestors.last();
        assert(ancestors =~= init.push(a));
        assert(ancestors[ancestors.len() - 1] == a);
        assert forall|x: Uuid| init.contains(x) implies ancestors.contains(x) by {
            let k = choose|k: int| 0 <= k < init.len() && init[k] == x;
            assert(ancestors[k] == x);
        }
        assert forall|x: Uuid| ancestors.contains(x) implies (init.contains(x) || x == a) by {
            let k = choose|k: int| 0 <= k < ancestors.len() && ancestors[k] == x;
            if k < init.len() {
                assert(init[k] == x);
            }
        }
        lemma_visit_ancestors(seen, found, init, required_of, is_anc, is_prop);
        let prev = visit_ancestors(seen, found, init, required_of);
        assert(is_anc(a));
        if prev.0.contains(a) {
            if prev.1.contains(a) {
                assert(is_prop(a));
                assert(false);
            }
        } else {
            let s1 = prev.0.push(a);
            assert forall|x: Uuid| s1.contains(x) <==> (prev.0.contains(x) || x == a) by {
                if s1.contains(x) {
                    let k = choose|k: int| 0 <= k < s1.len() && s1[k] == x;
                    if k < prev.0.len() {
                        assert(prev.0[k] == x);
                    }
                }
                if prev.0.contains(x) {
                    let k = choose|k: int| 0 <= k < prev.0.len() && prev.0[k] == x;
                    assert(s1[k] == x);
                }
                if x == a {
                    assert(s1[prev.0.len() as int] == x);
                }
            }
            lemma_visit_props(s1, prev.1, required_of(a));
            let r = visit_props(s1, prev.1, required_of(a));
            assert(r == visit_ancestors(seen, found, ancestors, required_of));
            assert forall|x: Uuid| #[trigger] r.1.contains(x) implies r.0.contains(x) && is_prop(x) by {
                if prev.1.contains(x) {
                    assert(prev.0.contains(x));
                    assert(s1.contains(x));
                }
            }
            assert forall|x: Uuid| #[trigger] r.0.contains(x) implies r.1.contains(x) || (is_anc(x)
                && forall|p: Uuid| #[trigger] required_of(x).contains(p) ==> r.0.contains(p)) by {
                if !r.1.contains(x) {
                    assert(s1.contains(x));
                    if x != a {
                        assert(prev.0.contains(x));
                        if prev.1.contains(x) {
                            assert(r.1.contains(x));
                        } else {
                            assert forall|p: Uuid| #[trigger] required_of(x).contains(p) implies r.0.contains(p) by {
                                assert(prev.0.contains(p));
                                assert(s1.contains(p));
                            }
                        }
                    }
                }
            }
            assert(visit_invariant(r.0, r.1, required_of, is_anc, is_prop));
        }
    }
}

/// Whether `x` is an ancestor in one of the ancestries.
pub open spec fn in_some_ancestry(ancestries: Seq<Seq<Uuid>>, x: Uuid) -> bool {
    exists|i: int| 0 <= i < ancestries.len() && #[trigger] ancestries[i].contains(x)
}

/// Collecting over ancestries keeps the invariant, keeps what was met, and
/// meets every property required by an ancestor of any ancestry.
proof fn lemma_collect_required(
    ancestries: Seq<Seq<Uuid>>,
    required_of: spec_fn(Uuid) -> Seq<Uuid>,
    is_anc: spec_fn(Uuid) -> bool,
    is_prop: spec_fn(Uuid) -> bool,
)
    requires
        forall|x: Uuid| #[trigger] is_anc(x) ==> !is_prop(x),
        forall|a: Uuid, p: Uuid| is_anc(a) && #[trigger] required_of(a).contains(p) ==> is_prop(p),
        forall|i: int, a: Uuid|
            0 <= i < ancestries.len() && #[trigger] ancestries[i].contains(a) ==> is_anc(a),
    ensures
        ({
            let r = collect_required(ancestries, required_of);
            &&& visit_invariant(r.0, r.1, required_of, is_anc, is_prop)
            &&& forall|i: int, a: Uuid, p: Uuid|
                0 <= i < ancestries.len() && #[trigger] ancestries[i].contains(a)
                    && #[trigger] required_of(a).contains(p) ==> r.0.contains(p)
        }),
    decreases ancestries.len(),
{
    if ancestries.len() == 0 {
        assert(visit_invariant(Seq::empty(), Seq::empty(), required_of, is_anc, is_prop));
    } else {
        let init = ancestries.drop_last();
        let last = ancestries.last();
        assert forall|i: int, a: Uuid| 0 <= i < init.len() && #[trigger] init[i].contains(a) implies is_anc(a) by {
            assert(ancestries[i] == init[i]);
        }
        lemma_collect_required(init, required_of, is_anc, is_prop);
        let prev = collect_required(init, required_of);
        assert forall|a: Uuid| last.contains(a) implies #[trigger] is_anc(a) by {
            assert(ancestries[ancestries.len() - 1] == last);
        }
        lemma_visit_ancestors(prev.0, prev.1, last, required_of, is_anc, is_prop);
        let r = collect_required(ancestries, required_of);
        assert forall|i: int, a: Uuid, p: Uuid|
            0 <= i < ancestries.len() && #[trigger] ancestries[i].contains(a)
                && #[trigger] required_of(a).contains(p) implies r.0.contains(p) by {
            if i < init.len() {
                assert(init[i] == ancestries[i]);
                assert(prev.0.contains(p));
            } else {
                assert(ancestries[i] == last);
            }
        }
    }
}

/// Every property required by any ancestor of any of the classes is among
/// the required properties collected, provided no ancestor id is also the
/// id of a required property of an ancestor (ancestors and properties are
/// recorded together, so such an id would be taken for one met before).
pub proof fn lemma_required_covers_all_ancestors(
    ancestries: Seq<Seq<Uuid>>,
    table: Seq<(Uuid, Vec<Uuid>)>,
)
    requires
        forall|a: Uuid, b: Uuid|
            in_some_ancestry(ancestries, a) && in_some_ancestry(ancestries, b) ==> !#[trigger] table_lookup(
                table,
                b,
            ).contains(a),
    ensures
        forall|i: int, a: Uuid, p: Uuid|
            0 <= i < ancestries.len() && #[trigger] ancestries[i].contains(a) && #[trigger] table_lookup(
                table,
                a,
            ).contains(p) ==> collect_required(ancestries, |x: Uuid| table_lookup(table, x)).1.contains(p),
{
    let f = |x: Uuid| table_lookup(table, x);
    let is_anc = |x: Uuid| in_some_ancestry(ancestries, x);
    let is_prop = |x: Uuid| exists|a: Uuid| in_some_ancestry(ancestries, a) && #[trigger] table_lookup(table, a).contains(x);
    assert forall|x: Uuid| #[trigger] is_anc(x) implies !is_prop(x) by {
        if is_prop(x) {
            let a = choose|a: Uuid| in_some_ancestry(ancestries, a) && #[trigger] table_lookup(table, a).contains(x);
            assert(!table_lookup(table, a).contains(x));
        }
    }
    assert forall|a: Uuid, p: Uuid| is_anc(a) && #[trigger] f(a).contains(p) implies is_prop(p) by {
        assert(table_lookup(table, a).contains(p));
    }
    assert forall|i: int, a: Uuid| 0 <= i < ancestries.len() && #[trigger] ancestries[i].contains(a) implies is_anc(a) by {
        assert(in_some_ancestry(ancestries, a));
    }
    lemma_collect_required(ancestries, f, is_anc, is_prop);
    let r = collect_required(ancestries, f);
    assert forall|i: int, a: Uuid, p: Uuid|
        0 <= i < ancestries.len() && #[trigger] ancestries[i].contains(a) && #[trigger] table_lookup(
            table,
            a,
        ).contains(p) implies r.1.contains(p) by {
        assert(f(a).contains(p));
        assert(r.0.contains(p));
        assert(is_prop(p));
        assert(!is_anc(p));
    }
}

/// Whether `v` holds `x`.
fn holds_id(v: &Vec<Uuid>, x: Uuid) -> (res: bool)
    ensures
        res == v@.contains(x),
{
    let mut i: usize = 0;
    while i < v.len()
        invariant
            i <= v@.len(),
            forall|q: int| 0 <= q < i ==> v@[q] != x,
        decreases v.len() - i,
    {
        if v[i].value == x.value {
            assert(v@[i as int] == x);
            return true;
        }
        i = i + 1;
    }
    false
}

/// The required properties of an ancestor, from a table of
/// `(class, required properties)` entries (the first entry for the class;
/// none if it has no entry).
pub open spec fn table_lookup(table: Seq<(Uuid, Vec<Uuid>)>, a: Uuid) -> Seq<Uuid>
    decreases table.len(),
{
    if table.len() == 0 {
        Seq::empty()
    } else if table[0].0 == a {
        table[0].1@
    } else {
        table_lookup(table.drop_first(), a)
    }
}

/// The required properties of `a` in the table.
fn lookup_required(table: &Vec<(Uuid, Vec<Uuid>)>, a: Uuid) -> (res: Vec<Uuid>)
    ensures
        res@ == table_lookup(table@, a),
{
    let mut i: usize = 0;
    assert(table@.skip(0) =~= table@);
    while i < table.len()
        invariant
            i <= table@.len(),
            table_lookup(table@, a) == table_lookup(table@.skip(i as int), a),
        decreases table.len() - i,
    {
        proof {
            assert(table@.skip(i as int).drop_first() =~= table@.skip(i + 1));
            assert(table@.skip(i as int)[0] == table@[i as int]);
        }
        if table[i].0.value == a.value {
            let src = &table[i].1;
            let mut out: Vec<Uuid> = Vec::new();
            let mut k: usize = 0;
            while k < src.len()
                invariant
                    k <= src@.len(),
                    out@ == src@.take(k as int),
                decreases src.len() - k,
            {
                proof {
                    assert(src@.take(k + 1) =~= src@.take(k as int).push(src@[k as int]));
                }
                out.push(src[k]);
                k = k + 1;
            }
            assert(src@.take(src@.len() as int) =~= src@);
            return out;
        }
        i = i + 1;
    }
    assert(table@.skip(table@.len() as int) =~= Seq::<(Uuid, Vec<Uuid>)>::empty());
    Vec::new()
}

/// The identifiers of each ancestry.
pub open spec fn ancestry_view(v: Seq<Vec<Uuid>>) -> Seq<Seq<Uuid>> {
    v.map_values(|a: Vec<Uuid>| a@)
}

/// The required properties of the classes whose ancestries (each class
/// first) are `ancestries`, with each ancestor's required properties taken
/// from `table` (see `collect_required`).
pub fn required_properties_of(ancestries: &Vec<Vec<Uuid>>, table: &Vec<(Uuid, Vec<Uuid>)>) -> (res:
    Vec<Uuid>)
    ensures
        res@ == collect_required(ancestry_view(ancestries@), |a: Uuid| table_lookup(table@, a)).1,
{
    let ghost f = |a: Uuid| table_lookup(table@, a);
    let ghost av = ancestry_view(ancestries@);
    let mut seen: Vec<Uuid> = Vec::new();
    let mut found: Vec<Uuid> = Vec::new();
    let mut i: usize = 0;
    while i < ancestries.len()
        invariant
            av == ancestry_view(ancestries@),
            f == (|a: Uuid| table_lookup(table@, a)),
            i <= ancestries@.len(),
            (seen@, found@) == collect_required(av.take(i as int), f),
        decreases ancestries.len() - i,
    {
        let anc = &ancestries[i];
        let ghost start = (seen@, found@);
        let mut j: usize = 0;
        while j < anc.len()
            invariant
                f == (|a: Uuid| table_lookup(table@, a)),
                j <= anc@.len(),
                (seen@, found@) == visit_ancestors(start.0, start.1, anc@.take(j as int), f),
            decreases anc.len() - j,
        {
            let a = anc[j];
            proof {
                assert(anc@.take(j + 1).drop_last() =~= anc@.take(j as int));
            }
            if !holds_id(&seen, a) {
                seen.push(a);
                let props = lookup_required(table, a);
                let ghost mid = (seen@, found@);
                let mut k: usize = 0;
                while k < props.len()
                    invariant
                        k <= props@.len(),
                        (seen@, found@) == visit_props(mid.0, mid.1, props@.take(k as int)),
                    decreases props.len() - k,
                {
                    let p = props[k];
                    proof {
                        assert(props@.take(k + 1).drop_last() =~= props@.take(k as int));
                    }
                    if !holds_id(&seen, p) {
                        seen.push(p);
                        found.push(p);
                    }
                    k = k + 1;
                }
                proof {
                    assert(props@.take(props@.len() as int) =~= props@);
                }
            }
            j = j + 1;
        }
        proof {
            assert(anc@.take(anc@.len() as int) =~= anc@);
            assert(av.take(i + 1).drop_last() =~= av.take(i as int));
            assert(av[i as int] == anc@);
        }
        i = i + 1;
    }
    assert(av.take(ancestries@.len() as int) =~= av);
    found
}

} // verus!
