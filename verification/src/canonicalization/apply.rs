//! Applying a property patch to a block under the property's merge policy.

use crate::canonicalization::canonicalizer::PropertyDefinitionRegistry;
use crate::canonicalization::presets::{forbidden_patch_key, is_forbidden_patch_key};
use crate::canonicalization::value_objects::{
    PatchOutcome, ProjectionConflict, PropertyPatch, PropertyPatchProvenance,
};
use crate::entities::block::{props_view, same_block, Block};
use crate::entities::template_contract::{key_views, PropertyKey};
use crate::errors::domain_error::DomainError;
use crate::properties::definition::PropertyDefinition;
use crate::properties::types::{Cardinality, MergePolicy, PropertyMutability};
use crate::value_objects::{
    clone_values, lemma_pv_seq, lemma_pv_seq_push, pv, pv_seq, value_eq, values_contain, PValue,
    PropertyValue,
};
use vstd::prelude::*;

verus! {

// ── The merge rules, as a specification ─────────────────────────────────────

/// `arr` with `v` added at the end unless it is already there.
pub open spec fn push_dedup_spec(arr: Seq<PValue>, v: PValue) -> Seq<PValue> {
    if arr.contains(v) {
        arr
    } else {
        arr.push(v)
    }
}

/// `target` with each of `items`, in order, added unless already there.
pub open spec fn extend_unique_spec(target: Seq<PValue>, items: Seq<PValue>) -> Seq<PValue>
    decreases items.len(),
{
    if items.len() == 0 {
        target
    } else {
        push_dedup_spec(extend_unique_spec(target, items.drop_last()), items.last())
    }
}

/// Adding items without repeats is set union: the result holds exactly the
/// items of `target` and of `items`, begins with `target`, and repeats no
/// item when `target` repeats none.
pub proof fn lemma_extend_unique_is_union(target: Seq<PValue>, items: Seq<PValue>)
    ensures
        forall|e: PValue| #[trigger] extend_unique_spec(target, items).contains(e) <==> (target.contains(e)
            || items.contains(e)),
        target.len() <= extend_unique_spec(target, items).len(),
        extend_unique_spec(target, items).take(target.len() as int) == target,
        target.no_duplicates() ==> extend_unique_spec(target, items).no_duplicates(),
    decreases items.len(),
{
    if items.len() > 0 {
        let init = items.drop_last();
        let last = items.last();
        lemma_extend_unique_is_union(target, init);
        let r = extend_unique_spec(target, init);
        assert(items =~= init.push(last));
        assert forall|e: PValue| items.contains(e) <==> (init.contains(e) || e == last) by {
            if items.contains(e) {
                let i = choose|i: int| 0 <= i < items.len() && items[i] == e;
                if i < init.len() {
                    assert(init[i] == e);
                }
            }
            if init.contains(e) {
                let i = choose|i: int| 0 <= i < init.len() && init[i] == e;
                assert(items[i] == e);
            }
            if e == last {
                assert(items[items.len() - 1] == e);
            }
        }
        if !r.contains(last) {
            let p = r.push(last);
            assert forall|e: PValue| p.contains(e) <==> (r.contains(e) || e == last) by {
                if p.contains(e) {
                    let i = choose|i: int| 0 <= i < p.len() && p[i] == e;
                    if i < r.len() {
                        assert(r[i] == e);
                    }
                }
                if r.contains(e) {
                    let i = choose|i: int| 0 <= i < r.len() && r[i] == e;
                    assert(p[i] == e);
                }
                if e == last {
                    assert(p[r.len() as int] == e);
                }
            }
            assert(p.take(target.len() as int) =~= r.take(target.len() as int));
            if r.no_duplicates() {
                assert forall|i: int, j: int| 0 <= i < p.len() && 0 <= j < p.len() && i != j implies p[i]
                    != p[j] by {
                    if i < r.len() && j < r.len() {
                    } else if i == r.len() {
                        assert(r[j] == p[j]);
                    } else {
                        assert(r[i] == p[i]);
                    }
                }
            }
        }
    }
}

/// `target` united with `v`: with each of its items if `v` is an array,
/// with `v` itself otherwise.
pub open spec fn union_spec(target: Seq<PValue>, v: PValue) -> Seq<PValue> {
    match v {
        PValue::Array(items) => extend_unique_spec(target, items),
        _ => push_dedup_spec(target, v),
    }
}

/// The items `v` stands for in a union: its elements if it is an array,
/// itself otherwise.
pub open spec fn union_items(v: PValue) -> Seq<PValue> {
    match v {
        PValue::Array(items) => items,
        _ => seq![v],
    }
}

/// `Union` is set union: the result holds exactly the existing items and
/// those of `v`, keeps the existing ones first and in order, and repeats
/// no item when the existing array repeats none.
pub proof fn lemma_union_is_set_union(target: Seq<PValue>, v: PValue)
    ensures
        forall|e: PValue| #[trigger] union_spec(target, v).contains(e) <==> (target.contains(e)
            || union_items(v).contains(e)),
        union_spec(target, v).take(target.len() as int) == target,
        target.no_duplicates() ==> union_spec(target, v).no_duplicates(),
{
    lemma_extend_unique_is_union(target, union_items(v));
    match v {
        PValue::Array(items) => {},
        _ => {
            let s = union_items(v);
            assert(s.drop_last() =~= Seq::<PValue>::empty());
            assert(s.last() == v);
            assert(extend_unique_spec(target, s.drop_last()) == target);
            assert(union_spec(target, v) == extend_unique_spec(target, s));
        },
    }
}

/// The value `Append` writes: `v` for a single-valued property; for a
/// multi-valued one, `[v]` if nothing is there, the existing array with `v`
/// added unless present, or `[existing, v]` after a single value.
pub open spec fn appended(existing: Option<PValue>, card: Cardinality, v: PValue) -> PValue {
    match card {
        Cardinality::One => v,
        Cardinality::Many => match existing {
            None => PValue::Array(seq![v]),
            Some(PValue::Array(arr)) => PValue::Array(push_dedup_spec(arr, v)),
            Some(s) => PValue::Array(seq![s, v]),
        },
    }
}

/// `Append` on a multi-valued property adds the value to the existing
/// array at most once: the result holds the value, begins with the existing
/// items in order, grows by at most one item, repeats no item when the
/// existing array repeats none, and is the existing array itself when the
/// value is already there. On a single-valued property it is the value.
pub proof fn lemma_append_adds_once(existing: Option<PValue>, card: Cardinality, v: PValue)
    ensures
        card == Cardinality::One ==> appended(existing, card, v) == v,
        card == Cardinality::Many ==> (appended(existing, card, v) matches PValue::Array(r) && r.contains(v)),
        card == Cardinality::Many && existing is None ==> appended(existing, card, v) == PValue::Array(seq![v]),
        card == Cardinality::Many ==> (existing matches Some(PValue::Array(arr)) ==> (appended(
            existing,
            card,
            v,
        ) matches PValue::Array(r) && r.take(arr.len() as int) == arr && r.len() <= arr.len() + 1
            && (arr.no_duplicates() ==> r.no_duplicates()) && (arr.contains(v) ==> r == arr))),
{
    if card == Cardinality::Many {
        match existing {
            None => {
                assert(seq![v][0] == v);
            },
            Some(PValue::Array(arr)) => {
                if !arr.contains(v) {
                    let r = arr.push(v);
                    assert(r[arr.len() as int] == v);
                    assert(r.take(arr.len() as int) =~= arr);
                    if arr.no_duplicates() {
                        assert forall|i: int, j: int| 0 <= i < r.len() && 0 <= j < r.len() && i != j implies r[i]
                            != r[j] by {
                            if i < arr.len() && j < arr.len() {
                                assert(r[i] == arr[i] && r[j] == arr[j]);
                            } else if i == arr.len() {
                                assert(r[j] == arr[j]);
                            } else {
                                assert(r[i] == arr[i]);
                            }
                        }
                    }
                } else {
                    assert(arr.take(arr.len() as int) =~= arr);
                }
            },
            Some(s) => {
                let r = seq![s, v];
                assert(r[1] == v);
            },
        }
    }
}

/// The value `Union` writes: `v` for a single-valued property; for a
/// multi-valued one, `[v]` if nothing is there, or the existing array (a
/// single value counting as a one-item array) united with `v`.
pub open spec fn unioned(existing: Option<PValue>, card: Cardinality, v: PValue) -> PValue {
    match card {
        Cardinality::One => v,
        Cardinality::Many => match existing {
            None => PValue::Array(seq![v]),
            Some(PValue::Array(arr)) => PValue::Array(union_spec(arr, v)),
            Some(s) => PValue::Array(union_spec(seq![s], v)),
        },
    }
}

/// What a patch does to a property.
pub enum PatchEffect {
    /// Nothing; the key is reported as skipped.
    Skip,
    /// Writes this value.
    Write(PValue),
    /// Refuses with a merge conflict against this existing value.
    Reject(PValue),
    /// Reports a conflict with this existing value, for the user to resolve.
    Ask(PValue),
}

/// What writing `v` under `policy` does, given the existing value.
pub open spec fn patch_effect(
    policy: MergePolicy,
    card: Cardinality,
    existing: Option<PValue>,
    v: PValue,
) -> PatchEffect {
    match policy {
        MergePolicy::SetIfMissing => if existing is Some {
            PatchEffect::Skip
        } else {
            PatchEffect::Write(v)
        },
        MergePolicy::Overwrite => PatchEffect::Write(v),
        MergePolicy::Append => PatchEffect::Write(appended(existing, card, v)),
        MergePolicy::Union => PatchEffect::Write(unioned(existing, card, v)),
        MergePolicy::RejectOnConflict => match existing {
            Some(e) => if e == v {
                PatchEffect::Skip
            } else {
                PatchEffect::Reject(e)
            },
            None => PatchEffect::Write(v),
        },
        MergePolicy::AskOnConflict => match existing {
            Some(e) => if e == v {
                PatchEffect::Skip
            } else {
                PatchEffect::Ask(e)
            },
            None => PatchEffect::Write(v),
        },
    }
}

/// The reason given for a conflict under `AskOnConflict`.
pub open spec fn ask_reason() -> Seq<char> {
    "conflicting values require user resolution"@
}

/// The block's current value under `key`, if any.
pub open spec fn existing_value(b: Block, key: Seq<char>) -> Option<PValue> {
    if b.properties@.contains_key(key) {
        Some(pv(b.properties@[key]))
    } else {
        None
    }
}

/// Whether `b2` is `b1` with only its properties changed.
pub open spec fn only_properties_changed(b1: Block, b2: Block) -> bool {
    b2 == (Block { properties: b2.properties, ..b1 })
}

/// What applying a patch under definition `def` to block `b1` gives: the
/// block afterwards `b2` and the result `res`.
pub open spec fn policy_applied(
    patch: PropertyPatch,
    def: PropertyDefinition,
    b1: Block,
    b2: Block,
    res: Result<PatchOutcome, DomainError>,
) -> bool {
    let key = patch.key@;
    let v = pv(patch.value);
    match patch_effect(def.merge_policy, def.cardinality, existing_value(b1, key), v) {
        PatchEffect::Skip => {
            &&& b2 == b1
            &&& res matches Ok(out)
            &&& same_block(out.block, b1)
            &&& out.conflicts@.len() == 0
            &&& out.derived_materialized@.len() == 0
            &&& key_views(out.skipped@) == seq![key]
        },
        PatchEffect::Write(nv) => {
            &&& only_properties_changed(b1, b2)
            &&& b2.properties.wf()
            &&& props_view(b2.properties) == props_view(b1.properties).insert(key, nv)
            &&& res matches Ok(out)
            &&& same_block(out.block, b2)
            &&& out.conflicts@.len() == 0
            &&& out.skipped@.len() == 0
            &&& key_views(out.derived_materialized@) == if patch.provenance == PropertyPatchProvenance::Derived {
                seq![key]
            } else {
                Seq::empty()
            }
        },
        PatchEffect::Reject(e) => {
            &&& b2 == b1
            &&& res matches Err(DomainError::MergeConflict { key: k, existing, attempted })
            &&& k@ == key
            &&& pv(existing) == e
            &&& pv(attempted) == v
        },
        PatchEffect::Ask(e) => {
            &&& b2 == b1
            &&& res matches Ok(out)
            &&& same_block(out.block, b1)
            &&& out.derived_materialized@.len() == 0
            &&& out.skipped@.len() == 0
            &&& out.conflicts@.len() == 1
            &&& out.conflicts@[0].property@ == key
            &&& pv(out.conflicts@[0].existing_value) == e
            &&& pv(out.conflicts@[0].attempted_value) == v
            &&& out.conflicts@[0].policy == MergePolicy::AskOnConflict
            &&& out.conflicts@[0].reason@ == ask_reason()
        },
    }
}

// ── Array helpers ───────────────────────────────────────────────────────────

/// Adds `value` at the end of `arr` unless an equal value is there.
pub fn push_dedup(arr: &mut Vec<PropertyValue>, value: &PropertyValue)
    ensures
        pv_seq(final(arr)@) == push_dedup_spec(pv_seq(old(arr)@), pv(*value)),
{
    if !values_contain(arr, value) {
        let c = value.clone();
        proof {
            lemma_pv_seq_push(arr@, c);
        }
        arr.push(c);
    }
}

/// Adds the items of `value` (or `value` itself if it is not an array) to
/// `target`, each unless an equal value is there.
pub fn extend_with_unique(target: &mut Vec<PropertyValue>, value: &PropertyValue)
    ensures
        pv_seq(final(target)@) == union_spec(pv_seq(old(target)@), pv(*value)),
{
    match value {
        PropertyValue::Array(items) => {
            let ghost start = pv_seq(target@);
            let ghost iv = pv_seq(items@);
            proof {
                lemma_pv_seq(items@);
            }
            let mut i: usize = 0;
            while i < items.len()
                invariant
                    iv == pv_seq(items@),
                    iv.len() == items@.len(),
                    forall|j: int| 0 <= j < items@.len() ==> #[trigger] iv[j] == pv(items@[j]),
                    i <= items@.len(),
                    pv_seq(target@) == extend_unique_spec(start, iv.take(i as int)),
                decreases items.len() - i,
            {
                proof {
                    assert(iv.take(i + 1).drop_last() =~= iv.take(i as int));
                }
                push_dedup(target, &items[i]);
                i = i + 1;
            }
            assert(iv.take(items@.len() as int) =~= iv);
        },
        _ => {
            push_dedup(target, value);
        },
    }
}

// ── Applying a patch ────────────────────────────────────────────────────────

/// Applies a patch to `block`: `content`, `text` and `children` are refused
/// with `ForbiddenPatchKey`; a key with no definition is skipped and the
/// block left alone; an explicit patch on an immutable property is refused
/// with `ImmutableProperty`; otherwise the definition's merge policy decides
/// (see `policy_applied`).
pub fn apply_property_patch(
    patch: &PropertyPatch,
    block: &mut Block,
    defs: &PropertyDefinitionRegistry,
) -> (res: Result<PatchOutcome, DomainError>)
    requires
        old(block).properties.wf(),
        defs.wf(),
    ensures
        forbidden_patch_key(patch.key@) ==> *final(block) == *old(block) && (res matches Err(
            DomainError::ForbiddenPatchKey(k),
        ) && k@ == patch.key@),
        !forbidden_patch_key(patch.key@) && !defs@.contains_key(patch.key@) ==> *final(block)
            == *old(block) && (res matches Ok(out) && same_block(out.block, *old(block))
            && out.conflicts@.len() == 0 && out.derived_materialized@.len() == 0 && key_views(
            out.skipped@,
        ) == seq![patch.key@]),
        !forbidden_patch_key(patch.key@) && defs@.contains_key(patch.key@) && defs@[patch.key@].mutability
            == PropertyMutability::Immutable && patch.provenance == PropertyPatchProvenance::Explicit
            ==> *final(block) == *old(block) && (res matches Err(DomainError::ImmutableProperty(k))
            && k@ == patch.key@),
        !forbidden_patch_key(patch.key@) && defs@.contains_key(patch.key@) && !(
        defs@[patch.key@].mutability == PropertyMutability::Immutable && patch.provenance
            == PropertyPatchProvenance::Explicit) ==> policy_applied(
            *patch,
            defs@[patch.key@],
            *old(block),
            *final(block),
            res,
        ),
{
    let key_str = patch.key.as_str();
    if is_forbidden_patch_key(key_str) {
        return Err(DomainError::ForbiddenPatchKey(key_str.to_owned()));
    }
    let def = match defs.get(key_str) {
        None => {
            let mut outcome = PatchOutcome::unchanged(block.duplicate());
            let k = patch.key.duplicate();
            outcome.skipped.push(k);
            assert(key_views(outcome.skipped@) =~= seq![patch.key@]);
            return Ok(outcome);
        },
        Some(d) => d,
    };
    if def.mutability == PropertyMutability::Immutable && patch.provenance
        == PropertyPatchProvenance::Explicit {
        return Err(DomainError::ImmutableProperty(key_str.to_owned()));
    }
    apply_policy(patch, block, def)
}

/// The value a patch writes under `Append` (`union` false) or `Union`
/// (`union` true).
fn merged_value(
    union: bool,
    card: Cardinality,
    existing: Option<&PropertyValue>,
    value: &PropertyValue,
) -> (res: PropertyValue)
    ensures
        !union ==> pv(res) == appended(opt_pv(existing), card, pv(*value)),
        union ==> pv(res) == unioned(opt_pv(existing), card, pv(*value)),
{
    match card {
        Cardinality::One => {
            let c = value.clone();
            c
        },
        Cardinality::Many => match existing {
            None => {
                let mut arr: Vec<PropertyValue> = Vec::new();
                let c = value.clone();
                proof {
                    lemma_pv_seq_push(arr@, c);
                    assert(pv_seq(arr@) =~= Seq::<PValue>::empty());
                    assert(pv_seq(arr@).push(pv(c)) =~= seq![pv(*value)]);
                }
                arr.push(c);
                PropertyValue::Array(arr)
            },
            Some(e) => {
                match e {
                    PropertyValue::Array(a) => {
                        let mut arr = clone_values(a);
                        if union {
                            extend_with_unique(&mut arr, value);
                        } else {
                            push_dedup(&mut arr, value);
                        }
                        PropertyValue::Array(arr)
                    },
                    _ => {
                        let mut arr: Vec<PropertyValue> = Vec::new();
                        let s = e.clone();
                        proof {
                            lemma_pv_seq_push(arr@, s);
                            assert(pv_seq(arr@) =~= Seq::<PValue>::empty());
                            assert(pv_seq(arr@).push(pv(s)) =~= seq![pv(*e)]);
                        }
                        arr.push(s);
                        if union {
                            extend_with_unique(&mut arr, value);
                        } else {
                            let c = value.clone();
                            proof {
                                lemma_pv_seq_push(arr@, c);
                                assert(seq![pv(*e)].push(pv(c)) =~= seq![pv(*e), pv(*value)]);
                            }
                            arr.push(c);
                        }
                        PropertyValue::Array(arr)
                    },
                }
            },
        },
    }
}

/// The content of an optional owned value.
pub open spec fn opt_pv_owned(o: Option<PropertyValue>) -> Option<PValue> {
    match o {
        Some(e) => Some(pv(e)),
        None => None,
    }
}

/// The content of an optional value.
pub open spec fn opt_pv(o: Option<&PropertyValue>) -> Option<PValue> {
    match o {
        Some(e) => Some(pv(*e)),
        None => None,
    }
}

/// Writes `new_value` under the patch's key: the outcome carries the block
/// after the write, and lists the key as materialized when the patch is
/// derived.
fn write_tracked(patch: &PropertyPatch, block: &mut Block, new_value: PropertyValue) -> (res:
    PatchOutcome)
    requires
        old(block).properties.wf(),
    ensures
        only_properties_changed(*old(block), *final(block)),
        final(block).properties.wf(),
        props_view(final(block).properties) == props_view(old(block).properties).insert(
            patch.key@,
            pv(new_value),
        ),
        same_block(res.block, *final(block)),
        res.conflicts@.len() == 0,
        res.skipped@.len() == 0,
        key_views(res.derived_materialized@) == if patch.provenance
            == PropertyPatchProvenance::Derived {
            seq![patch.key@]
        } else {
            Seq::empty()
        },
{
    let ghost b1 = *block;
    let ghost key = patch.key@;
    let ghost nv = pv(new_value);
    block.properties.insert(patch.key.to_string(), new_value);
    proof {
        assert(props_view(block.properties) =~= props_view(b1.properties).insert(key, nv));
    }
    let mut outcome = PatchOutcome::unchanged(block.duplicate());
    if patch.provenance == PropertyPatchProvenance::Derived {
        outcome.derived_materialized.push(patch.key.duplicate());
    }
    proof {
        if patch.provenance == PropertyPatchProvenance::Derived {
            assert(key_views(outcome.derived_materialized@) =~= seq![key]);
        } else {
            assert(key_views(outcome.derived_materialized@) =~= Seq::<Seq<char>>::empty());
        }
    }
    outcome
}

/// The outcome of a patch that leaves the property as it is: the key is
/// reported as skipped.
fn skipped_outcome(patch: &PropertyPatch, block: &Block) -> (res: PatchOutcome)
    requires
        block.properties.wf(),
    ensures
        same_block(res.block, *block),
        res.conflicts@.len() == 0,
        res.derived_materialized@.len() == 0,
        key_views(res.skipped@) == seq![patch.key@],
{
    let mut outcome = PatchOutcome::unchanged(block.duplicate());
    outcome.skipped.push(patch.key.duplicate());
    assert(key_views(outcome.skipped@) =~= seq![patch.key@]);
    outcome
}

/// `Append`: a single-valued property is overwritten; a multi-valued one
/// gets the patch's value added to its array (see `appended`).
fn apply_append(patch: &PropertyPatch, block: &mut Block, def: &PropertyDefinition) -> (res:
    Result<PatchOutcome, DomainError>)
    requires
        old(block).properties.wf(),
        def.merge_policy == MergePolicy::Append,
    ensures
        policy_applied(*patch, *def, *old(block), *final(block), res),
{
    let existing = block.properties.get(patch.key.as_str());
    let new_value = merged_value(false, def.cardinality, existing, &patch.value);
    Ok(write_tracked(patch, block, new_value))
}

/// `Union`: a single-valued property is overwritten; a multi-valued one
/// gets the patch's values united with its array (see `unioned`).
fn apply_union(patch: &PropertyPatch, block: &mut Block, def: &PropertyDefinition) -> (res: Result<
    PatchOutcome,
    DomainError,
>)
    requires
        old(block).properties.wf(),
        def.merge_policy == MergePolicy::Union,
    ensures
        policy_applied(*patch, *def, *old(block), *final(block), res),
{
    let existing = block.properties.get(patch.key.as_str());
    let new_value = merged_value(true, def.cardinality, existing, &patch.value);
    Ok(write_tracked(patch, block, new_value))
}

/// `RejectOnConflict`: an equal value is skipped, a different one refused
/// with `MergeConflict`, and a missing one written.
fn apply_reject_on_conflict(patch: &PropertyPatch, block: &mut Block, def: &PropertyDefinition) -> (res:
    Result<PatchOutcome, DomainError>)
    requires
        old(block).properties.wf(),
        def.merge_policy == MergePolicy::RejectOnConflict,
    ensures
        policy_applied(*patch, *def, *old(block), *final(block), res),
{
    let existing: Option<PropertyValue> = match block.properties.get(patch.key.as_str()) {
        Some(e) => Some(e.clone()),
        None => None,
    };
    assert(opt_pv_owned(existing) == existing_value(*old(block), patch.key@));
    match existing {
        Some(e) => {
            if value_eq(&e, &patch.value) {
                return Ok(skipped_outcome(patch, block));
            }
            Err(
                DomainError::MergeConflict {
                    key: patch.key.to_string(),
                    existing: e,
                    attempted: patch.value.clone(),
                },
            )
        },
        None => Ok(write_tracked(patch, block, patch.value.clone())),
    }
}

/// `AskOnConflict`: an equal value is skipped, a different one reported as
/// a conflict for the user to resolve (the block stays), and a missing one
/// written.
fn apply_ask_on_conflict(patch: &PropertyPatch, block: &mut Block, def: &PropertyDefinition) -> (res:
    Result<PatchOutcome, DomainError>)
    requires
        old(block).properties.wf(),
        def.merge_policy == MergePolicy::AskOnConflict,
    ensures
        policy_applied(*patch, *def, *old(block), *final(block), res),
{
    let existing: Option<PropertyValue> = match block.properties.get(patch.key.as_str()) {
        Some(e) => Some(e.clone()),
        None => None,
    };
    assert(opt_pv_owned(existing) == existing_value(*old(block), patch.key@));
    match existing {
        Some(e) => {
            if value_eq(&e, &patch.value) {
                return Ok(skipped_outcome(patch, block));
            }
            let conflict = ProjectionConflict {
                property: patch.key.duplicate(),
                existing_value: e,
                attempted_value: patch.value.clone(),
                policy: MergePolicy::AskOnConflict,
                reason: "conflicting values require user resolution".to_owned(),
            };
            let mut outcome = PatchOutcome::unchanged(block.duplicate());
            outcome.conflicts.push(conflict);
            Ok(outcome)
        },
        None => Ok(write_tracked(patch, block, patch.value.clone())),
    }
}

/// Applies a patch under the definition's merge policy.
fn apply_policy(patch: &PropertyPatch, block: &mut Block, def: &PropertyDefinition) -> (res: Result<
    PatchOutcome,
    DomainError,
>)
    requires
        old(block).properties.wf(),
    ensures
        policy_applied(*patch, *def, *old(block), *final(block), res),
{
    match def.merge_policy {
        MergePolicy::SetIfMissing => {
            if block.properties.contains_key(patch.key.as_str()) {
                return Ok(skipped_outcome(patch, block));
            }
            Ok(write_tracked(patch, block, patch.value.clone()))
        },
        MergePolicy::Overwrite => Ok(write_tracked(patch, block, patch.value.clone())),
        MergePolicy::Append => apply_append(patch, block, def),
        MergePolicy::Union => apply_union(patch, block, def),
        MergePolicy::RejectOnConflict => apply_reject_on_conflict(patch, block, def),
        MergePolicy::AskOnConflict => apply_ask_on_conflict(patch, block, def),
    }
}

impl PropertyPatch {
    /// Applies this patch to `block` (see `apply_property_patch`).
    pub fn apply_to(&self, block: &mut Block, defs: &PropertyDefinitionRegistry) -> (res: Result<
        PatchOutcome,
        DomainError,
    >)
        requires
            old(block).properties.wf(),
            defs.wf(),
        ensures
            forbidden_patch_key(self.key@) ==> *final(block) == *old(block) && (res matches Err(
                DomainError::ForbiddenPatchKey(k),
            ) && k@ == self.key@),
            !forbidden_patch_key(self.key@) && !defs@.contains_key(self.key@) ==> *final(block)
                == *old(block) && (res matches Ok(out) && key_views(out.skipped@) == seq![self.key@]),
            !forbidden_patch_key(self.key@) && defs@.contains_key(self.key@) && defs@[self.key@].mutability
                == PropertyMutability::Immutable && self.provenance
                == PropertyPatchProvenance::Explicit ==> *final(block) == *old(block) && (
            res matches Err(DomainError::ImmutableProperty(k)) && k@ == self.key@),
            !forbidden_patch_key(self.key@) && defs@.contains_key(self.key@) && !(
            defs@[self.key@].mutability == PropertyMutability::Immutable && self.provenance
                == PropertyPatchProvenance::Explicit) ==> policy_applied(
                *self,
                defs@[self.key@],
                *old(block),
                *final(block),
                res,
            ),
    {
        apply_property_patch(self, block, defs)
    }
}

} // verus!
