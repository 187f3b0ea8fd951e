//! The built-in property definitions every graph starts with.

use crate::content::mark::opt_view;
use crate::properties::definition::PropertyDefinition;
use crate::properties::types::{
    Cardinality, ClosedValue, PropertyMutability, PropertyType, PropertyVisibility, ViewContext,
};
use crate::str_map::StrMap;
use crate::value_objects::Uuid;
use vstd::prelude::*;

verus! {

/// The keys of the built-in properties, in the order they are registered.
pub open spec fn builtin_keys() -> Seq<Seq<char>> {
    seq!["quilt.property/status"@, "quilt.property/priority"@, "quilt.property/deadline"@, "quilt.property/scheduled"@, "quilt.property/url"@, "template"@, "id"@, "created_at"@, "updated_at"@, "quilt.property/tags"@, "quilt.property/created_by"@]
}

/// The closed values of a definition: key, display text, icon and rank.
pub open spec fn closed_view(cv: Seq<ClosedValue>) -> Seq<(Seq<char>, Seq<char>, Option<Seq<char>>, int)> {
    cv.map_values(|c: ClosedValue| (c.db_ident@, c.value@, opt_view(c.icon), c.order as int))
}

/// What the built-in definition with key `k` holds: title, type,
/// cardinality, visibility, mutability and closed values.
pub open spec fn builtin_shape(k: Seq<char>) -> (
    Seq<char>,
    PropertyType,
    Cardinality,
    PropertyVisibility,
    PropertyMutability,
    Seq<(Seq<char>, Seq<char>, Option<Seq<char>>, int)>,
) {
    if k == "quilt.property/status"@ {
        ("Status"@, PropertyType::Text, Cardinality::One, PropertyVisibility::Panel, PropertyMutability::Mutable, seq![("todo"@, "To Do"@, Some("📋"@), 1int), ("doing"@, "Doing"@, Some("🏃"@), 2int), ("done"@, "Done"@, Some("✅"@), 3int), ("later"@, "Later"@, Some("⏰"@), 4int), ("cancelled"@, "Cancelled"@, Some("❌"@), 5int)])
    } else if k == "quilt.property/priority"@ {
        ("Priority"@, PropertyType::Text, Cardinality::One, PropertyVisibility::Panel, PropertyMutability::Mutable, seq![("a"@, "A"@, Some("🔴"@), 1int), ("b"@, "B"@, Some("🟡"@), 2int), ("c"@, "C"@, Some("🟢"@), 3int)])
    } else if k == "quilt.property/deadline"@ {
        ("Deadline"@, PropertyType::Date, Cardinality::One, PropertyVisibility::Panel, PropertyMutability::Mutable, Seq::empty())
    } else if k == "quilt.property/scheduled"@ {
        ("Scheduled"@, PropertyType::Date, Cardinality::One, PropertyVisibility::Panel, PropertyMutability::Mutable, Seq::empty())
    } else if k == "quilt.property/url"@ {
        ("URL"@, PropertyType::Url, Cardinality::One, PropertyVisibility::Panel, PropertyMutability::Mutable, Seq::empty())
    } else if k == "template"@ {
        ("Template"@, PropertyType::Text, Cardinality::One, PropertyVisibility::Inline, PropertyMutability::Mutable, Seq::empty())
    } else if k == "id"@ {
        ("ID"@, PropertyType::Text, Cardinality::One, PropertyVisibility::Hidden, PropertyMutability::Immutable, Seq::empty())
    } else if k == "created_at"@ {
        ("Created At"@, PropertyType::Text, Cardinality::One, PropertyVisibility::Hidden, PropertyMutability::Immutable, Seq::empty())
    } else if k == "updated_at"@ {
        ("Updated At"@, PropertyType::Text, Cardinality::One, PropertyVisibility::Hidden, PropertyMutability::Immutable, Seq::empty())
    } else if k == "quilt.property/tags"@ {
        ("Tags"@, PropertyType::Text, Cardinality::Many, PropertyVisibility::Panel, PropertyMutability::Mutable, Seq::empty())
    } else {
        ("Created By"@, PropertyType::Text, Cardinality::One, PropertyVisibility::Panel, PropertyMutability::Mutable, Seq::empty())
    }
}

/// No key of a built-in property occurs twice.
pub proof fn lemma_builtin_keys_distinct()
    ensures
        builtin_keys().no_duplicates(),
        "quilt.property/priority"@ != "quilt.property/status"@,
        "quilt.property/deadline"@ != "quilt.property/status"@,
        "quilt.property/deadline"@ != "quilt.property/priority"@,
        "quilt.property/scheduled"@ != "quilt.property/status"@,
        "quilt.property/scheduled"@ != "quilt.property/priority"@,
        "quilt.property/scheduled"@ != "quilt.property/deadline"@,
        "quilt.property/url"@ != "quilt.property/status"@,
        "quilt.property/url"@ != "quilt.property/priority"@,
        "quilt.property/url"@ != "quilt.property/deadline"@,
        "quilt.property/url"@ != "quilt.property/scheduled"@,
        "template"@ != "quilt.property/status"@,
        "template"@ != "quilt.property/priority"@,
        "template"@ != "quilt.property/deadline"@,
        "template"@ != "quilt.property/scheduled"@,
        "template"@ != "quilt.property/url"@,
        "id"@ != "quilt.property/status"@,
        "id"@ != "quilt.property/priority"@,
        "id"@ != "quilt.property/deadline"@,
        "id"@ != "quilt.property/scheduled"@,
        "id"@ != "quilt.property/url"@,
        "id"@ != "template"@,
        "created_at"@ != "quilt.property/status"@,
        "created_at"@ != "quilt.property/priority"@,
        "created_at"@ != "quilt.property/deadline"@,
        "created_at"@ != "quilt.property/scheduled"@,
        "created_at"@ != "quilt.property/url"@,
        "created_at"@ != "template"@,
        "created_at"@ != "id"@,
        "updated_at"@ != "quilt.property/status"@,
        "updated_at"@ != "quilt.property/priority"@,
        "updated_at"@ != "quilt.property/deadline"@,
        "updated_at"@ != "quilt.property/scheduled"@,
        "updated_at"@ != "quilt.property/url"@,
        "updated_at"@ != "template"@,
        "updated_at"@ != "id"@,
        "updated_at"@ != "created_at"@,
        "quilt.property/tags"@ != "quilt.property/status"@,
        "quilt.property/tags"@ != "quilt.property/priority"@,
        "quilt.property/tags"@ != "quilt.property/deadline"@,
        "quilt.property/tags"@ != "quilt.property/scheduled"@,
        "quilt.property/tags"@ != "quilt.property/url"@,
        "quilt.property/tags"@ != "template"@,
        "quilt.property/tags"@ != "id"@,
        "quilt.property/tags"@ != "created_at"@,
        "quilt.property/tags"@ != "updated_at"@,
        "quilt.property/created_by"@ != "quilt.property/status"@,
        "quilt.property/created_by"@ != "quilt.property/priority"@,
        "quilt.property/created_by"@ != "quilt.property/deadline"@,
        "quilt.property/created_by"@ != "quilt.property/scheduled"@,
        "quilt.property/created_by"@ != "quilt.property/url"@,
        "quilt.property/created_by"@ != "template"@,
        "quilt.property/created_by"@ != "id"@,
        "quilt.property/created_by"@ != "created_at"@,
        "quilt.property/created_by"@ != "updated_at"@,
        "quilt.property/created_by"@ != "quilt.property/tags"@,
{
    reveal_strlit("quilt.property/status");
    reveal_strlit("quilt.property/priority");
    reveal_strlit("quilt.property/deadline");
    reveal_strlit("quilt.property/scheduled");
    reveal_strlit("quilt.property/url");
    reveal_strlit("template");
    reveal_strlit("id");
    reveal_strlit("created_at");
    reveal_strlit("updated_at");
    reveal_strlit("quilt.property/tags");
    reveal_strlit("quilt.property/created_by");
    assert("quilt.property/priority"@.len() != "quilt.property/status"@.len());
    assert("quilt.property/deadline"@.len() != "quilt.property/status"@.len());
    assert("quilt.property/deadline"@[15] != "quilt.property/priority"@[15]);
    assert("quilt.property/scheduled"@.len() != "quilt.property/status"@.len());
    assert("quilt.property/scheduled"@.len() != "quilt.property/priority"@.len());
    assert("quilt.property/scheduled"@.len() != "quilt.property/deadline"@.len());
    assert("quilt.property/url"@.len() != "quilt.property/status"@.len());
    assert("quilt.property/url"@.len() != "quilt.property/priority"@.len());
    assert("quilt.property/url"@.len() != "quilt.property/deadline"@.len());
    assert("quilt.property/url"@.len() != "quilt.property/scheduled"@.len());
    assert("template"@.len() != "quilt.property/status"@.len());
    assert("template"@.len() != "quilt.property/priority"@.len());
    assert("template"@.len() != "quilt.property/deadline"@.len());
    assert("template"@.len() != "quilt.property/scheduled"@.len());
    assert("template"@.len() != "quilt.property/url"@.len());
    assert("id"@.len() != "quilt.property/status"@.len());
    assert("id"@.len() != "quilt.property/priority"@.len());
    assert("id"@.len() != "quilt.property/deadline"@.len());
    assert("id"@.len() != "quilt.property/scheduled"@.len());
    assert("id"@.len() != "quilt.property/url"@.len());
    assert("id"@.len() != "template"@.len());
    assert("created_at"@.len() != "quilt.property/status"@.len());
    assert("created_at"@.len() != "quilt.property/priority"@.len());
    assert("created_at"@.len() != "quilt.property/deadline"@.len());
    assert("created_at"@.len() != "quilt.property/scheduled"@.len());
    assert("created_at"@.len() != "quilt.property/url"@.len());
    assert("created_at"@.len() != "template"@.len());
    assert("created_at"@.len() != "id"@.len());
    assert("updated_at"@.len() != "quilt.property/status"@.len());
    assert("updated_at"@.len() != "quilt.property/priority"@.len());
    assert("updated_at"@.len() != "quilt.property/deadline"@.len());
    assert("updated_at"@.len() != "quilt.property/scheduled"@.len());
    assert("updated_at"@.len() != "quilt.property/url"@.len());
    assert("updated_at"@.len() != "template"@.len());
    assert("updated_at"@.len() != "id"@.len());
    assert("updated_at"@[0] != "created_at"@[0]);
    assert("quilt.property/tags"@.len() != "quilt.property/status"@.len());
    assert("quilt.property/tags"@.len() != "quilt.property/priority"@.len());
    assert("quilt.property/tags"@.len() != "quilt.property/deadline"@.len());
    assert("quilt.property/tags"@.len() != "quilt.property/scheduled"@.len());
    assert("quilt.property/tags"@.len() != "quilt.property/url"@.len());
    assert("quilt.property/tags"@.len() != "template"@.len());
    assert("quilt.property/tags"@.len() != "id"@.len());
    assert("quilt.property/tags"@.len() != "created_at"@.len());
    assert("quilt.property/tags"@.len() != "updated_at"@.len());
    assert("quilt.property/created_by"@.len() != "quilt.property/status"@.len());
    assert("quilt.property/created_by"@.len() != "quilt.property/priority"@.len());
    assert("quilt.property/created_by"@.len() != "quilt.property/deadline"@.len());
    assert("quilt.property/created_by"@.len() != "quilt.property/scheduled"@.len());
    assert("quilt.property/created_by"@.len() != "quilt.property/url"@.len());
    assert("quilt.property/created_by"@.len() != "template"@.len());
    assert("quilt.property/created_by"@.len() != "id"@.len());
    assert("quilt.property/created_by"@.len() != "created_at"@.len());
    assert("quilt.property/created_by"@.len() != "updated_at"@.len());
    assert("quilt.property/created_by"@.len() != "quilt.property/tags"@.len());
}

/// Whether `d` is the built-in definition for key `k`.
pub open spec fn is_builtin_def(d: PropertyDefinition, k: Seq<char>) -> bool {
    let s = builtin_shape(k);
    &&& d.db_ident@ == k
    &&& d.title@ == s.0
    &&& d.property_type == s.1
    &&& d.cardinality == s.2
    &&& d.visibility == s.3
    &&& d.mutability == s.4
    &&& closed_view(d.closed_values@) == s.5
    &&& d.derived_from is None
}

/// One closed value with an icon and a rank.
fn closed(db_ident: &str, value: &str, icon: &str, order: i64) -> (res: ClosedValue)
    ensures
        res.db_ident@ == db_ident@,
        res.value@ == value@,
        opt_view(res.icon) == Some(icon@),
        res.order == order,
{
    ClosedValue::new(Uuid::new_v4(), db_ident, value).with_icon(icon).with_order(order)
}

/// The built-in `quilt.property/status` definition.
fn builtin_status() -> (res: PropertyDefinition)
    ensures
        is_builtin_def(res, "quilt.property/status"@),
{
    proof {
        lemma_builtin_keys_distinct();
    }
    let mut cv: Vec<ClosedValue> = Vec::new();
    cv.push(closed("todo", "To Do", "📋", 1));
    cv.push(closed("doing", "Doing", "🏃", 2));
    cv.push(closed("done", "Done", "✅", 3));
    cv.push(closed("later", "Later", "⏰", 4));
    cv.push(closed("cancelled", "Cancelled", "❌", 5));
    let res = PropertyDefinition::from_legacy_fields(
        Uuid::new_v4(),
        "quilt.property/status",
        "Status",
        PropertyType::Text,
        ViewContext::Page,
        true,
        true,
        false,
        false,
    ).with_cardinality(Cardinality::One).with_closed_values(cv);
    assert(closed_view(res.closed_values@) =~= builtin_shape("quilt.property/status"@).5);
    res
}

/// The built-in `quilt.property/priority` definition.
fn builtin_priority() -> (res: PropertyDefinition)
    ensures
        is_builtin_def(res, "quilt.property/priority"@),
{
    proof {
        lemma_builtin_keys_distinct();
    }
    let mut cv: Vec<ClosedValue> = Vec::new();
    cv.push(closed("a", "A", "🔴", 1));
    cv.push(closed("b", "B", "🟡", 2));
    cv.push(closed("c", "C", "🟢", 3));
    let res = PropertyDefinition::from_legacy_fields(
        Uuid::new_v4(),
        "quilt.property/priority",
        "Priority",
        PropertyType::Text,
        ViewContext::Page,
        true,
        true,
        false,
        false,
    ).with_cardinality(Cardinality::One).with_closed_values(cv);
    assert(closed_view(res.closed_values@) =~= builtin_shape("quilt.property/priority"@).5);
    res
}

/// The built-in `quilt.property/deadline` definition.
fn builtin_deadline() -> (res: PropertyDefinition)
    ensures
        is_builtin_def(res, "quilt.property/deadline"@),
{
    proof {
        lemma_builtin_keys_distinct();
    }
    let cv: Vec<ClosedValue> = Vec::new();
    let res = PropertyDefinition::from_legacy_fields(
        Uuid::new_v4(),
        "quilt.property/deadline",
        "Deadline",
        PropertyType::Date,
        ViewContext::Page,
        true,
        true,
        false,
        false,
    ).with_cardinality(Cardinality::One).with_closed_values(cv);
    assert(closed_view(res.closed_values@) =~= builtin_shape("quilt.property/deadline"@).5);
    res
}

/// The built-in `quilt.property/scheduled` definition.
fn builtin_scheduled() -> (res: PropertyDefinition)
    ensures
        is_builtin_def(res, "quilt.property/scheduled"@),
{
    proof {
        lemma_builtin_keys_distinct();
    }
    let cv: Vec<ClosedValue> = Vec::new();
    let res = PropertyDefinition::from_legacy_fields(
        Uuid::new_v4(),
        "quilt.property/scheduled",
        "Scheduled",
        PropertyType::Date,
        ViewContext::Page,
        true,
        true,
        false,
        false,
    ).with_cardinality(Cardinality::One).with_closed_values(cv);
    assert(closed_view(res.closed_values@) =~= builtin_shape("quilt.property/scheduled"@).5);
    res
}

/// The built-in `quilt.property/url` definition.
fn builtin_url() -> (res: PropertyDefinition)
    ensures
        is_builtin_def(res, "quilt.property/url"@),
{
    proof {
        lemma_builtin_keys_distinct();
    }
    let cv: Vec<ClosedValue> = Vec::new();
    let res = PropertyDefinition::from_legacy_fields(
        Uuid::new_v4(),
        "quilt.property/url",
        "URL",
        PropertyType::Url,
        ViewContext::Page,
        true,
        true,
        false,
        false,
    ).with_cardinality(Cardinality::One).with_closed_values(cv);
    assert(closed_view(res.closed_values@) =~= builtin_shape("quilt.property/url"@).5);
    res
}

/// The built-in `template` definition.
fn builtin_template() -> (res: PropertyDefinition)
    ensures
        is_builtin_def(res, "template"@),
{
    proof {
        lemma_builtin_keys_distinct();
    }
    let cv: Vec<ClosedValue> = Vec::new();
    let res = PropertyDefinition::from_legacy_fields(
        Uuid::new_v4(),
        "template",
        "Template",
        PropertyType::Text,
        ViewContext::Block,
        true,
        true,
        false,
        false,
    ).with_cardinality(Cardinality::One).with_closed_values(cv);
    assert(closed_view(res.closed_values@) =~= builtin_shape("template"@).5);
    res
}

/// The built-in `id` definition.
fn builtin_id() -> (res: PropertyDefinition)
    ensures
        is_builtin_def(res, "id"@),
{
    proof {
        lemma_builtin_keys_distinct();
    }
    let cv: Vec<ClosedValue> = Vec::new();
    let res = PropertyDefinition::from_legacy_fields(
        Uuid::new_v4(),
        "id",
        "ID",
        PropertyType::Text,
        ViewContext::Never,
        false,
        false,
        true,
        true,
    ).with_cardinality(Cardinality::One).with_closed_values(cv);
    assert(closed_view(res.closed_values@) =~= builtin_shape("id"@).5);
    res
}

/// The built-in `created_at` definition.
fn builtin_created_at() -> (res: PropertyDefinition)
    ensures
        is_builtin_def(res, "created_at"@),
{
    proof {
        lemma_builtin_keys_distinct();
    }
    let cv: Vec<ClosedValue> = Vec::new();
    let res = PropertyDefinition::from_legacy_fields(
        Uuid::new_v4(),
        "created_at",
        "Created At",
        PropertyType::Text,
        ViewContext::Never,
        false,
        false,
        true,
        true,
    ).with_cardinality(Cardinality::One).with_closed_values(cv);
    assert(closed_view(res.closed_values@) =~= builtin_shape("created_at"@).5);
    res
}

/// The built-in `updated_at` definition.
fn builtin_updated_at() -> (res: PropertyDefinition)
    ensures
        is_builtin_def(res, "updated_at"@),
{
    proof {
        lemma_builtin_keys_distinct();
    }
    let cv: Vec<ClosedValue> = Vec::new();
    let res = PropertyDefinition::from_legacy_fields(
        Uuid::new_v4(),
        "updated_at",
        "Updated At",
        PropertyType::Text,
        ViewContext::Never,
        false,
        false,
        true,
        true,
    ).with_cardinality(Cardinality::One).with_closed_values(cv);
    assert(closed_view(res.closed_values@) =~= builtin_shape("updated_at"@).5);
    res
}

/// The built-in `quilt.property/tags` definition.
fn builtin_tags() -> (res: PropertyDefinition)
    ensures
        is_builtin_def(res, "quilt.property/tags"@),
{
    proof {
        lemma_builtin_keys_distinct();
    }
    let cv: Vec<ClosedValue> = Vec::new();
    let res = PropertyDefinition::from_legacy_fields(
        Uuid::new_v4(),
        "quilt.property/tags",
        "Tags",
        PropertyType::Text,
        ViewContext::Page,
        true,
        true,
        false,
        false,
    ).with_cardinality(Cardinality::Many).with_closed_values(cv);
    assert(closed_view(res.closed_values@) =~= builtin_shape("quilt.property/tags"@).5);
    res
}

/// The built-in `quilt.property/created_by` definition.
fn builtin_created_by() -> (res: PropertyDefinition)
    ensures
        is_builtin_def(res, "quilt.property/created_by"@),
{
    proof {
        lemma_builtin_keys_distinct();
    }
    let cv: Vec<ClosedValue> = Vec::new();
    let res = PropertyDefinition::from_legacy_fields(
        Uuid::new_v4(),
        "quilt.property/created_by",
        "Created By",
        PropertyType::Text,
        ViewContext::Page,
        true,
        true,
        false,
        false,
    ).with_cardinality(Cardinality::One).with_closed_values(cv);
    assert(closed_view(res.closed_values@) =~= builtin_shape("quilt.property/created_by"@).5);
    res
}

/// The built-in property definitions, keyed by their keys, in
/// registration order. Each call gives fresh random identifiers.
pub fn get_builtin_properties() -> (res: StrMap<PropertyDefinition>)
    ensures
        res.wf(),
        res.keys_seq() == builtin_keys(),
        forall|k: Seq<char>| #[trigger] res@.contains_key(k) <==> builtin_keys().contains(k),
        forall|k: Seq<char>| builtin_keys().contains(k) ==> is_builtin_def(#[trigger] res@[k], k),
{
    proof {
        lemma_builtin_keys_distinct();
    }
    let mut map: StrMap<PropertyDefinition> = StrMap::new();
    map.insert("quilt.property/status".to_owned(), builtin_status());
    map.insert("quilt.property/priority".to_owned(), builtin_priority());
    map.insert("quilt.property/deadline".to_owned(), builtin_deadline());
    map.insert("quilt.property/scheduled".to_owned(), builtin_scheduled());
    map.insert("quilt.property/url".to_owned(), builtin_url());
    map.insert("template".to_owned(), builtin_template());
    map.insert("id".to_owned(), builtin_id());
    map.insert("created_at".to_owned(), builtin_created_at());
    map.insert("updated_at".to_owned(), builtin_updated_at());
    map.insert("quilt.property/tags".to_owned(), builtin_tags());
    map.insert("quilt.property/created_by".to_owned(), builtin_created_by());
    assert(map.keys_seq() =~= builtin_keys());
    assert forall|k: Seq<char>| builtin_keys().contains(k) implies is_builtin_def(
        #[trigger] map@[k],
        k,
    ) by {
        let j = choose|j: int| 0 <= j < builtin_keys().len() && builtin_keys()[j] == k;
    }
    map
}

/// The built-in definition with key `db_ident`, if there is one.
pub fn get_builtin_property(db_ident: &str) -> (res: Option<PropertyDefinition>)
    ensures
        res is Some <==> builtin_keys().contains(db_ident@),
        res matches Some(d) ==> is_builtin_def(d, db_ident@),
{
    let map = get_builtin_properties();
    match map.get(db_ident) {
        Some(d) => {
            let r = d.duplicate();
            assert(closed_view(r.closed_values@) =~= closed_view(d.closed_values@));
            Some(r)
        },
        None => None,
    }
}

/// All built-in definitions, in registration order.
pub fn get_all_builtin_properties() -> (res: Vec<PropertyDefinition>)
    ensures
        res@.len() == builtin_keys().len(),
        forall|i: int| 0 <= i < res@.len() ==> is_builtin_def(#[trigger] res@[i], builtin_keys()[i]),
{
    let map = get_builtin_properties();
    proof {
        map.lemma_view();
    }
    let mut out: Vec<PropertyDefinition> = Vec::new();
    let mut i: usize = 0;
    while i < map.len()
        invariant
            map.wf(),
            map.keys_seq() == builtin_keys(),
            forall|k: Seq<char>| builtin_keys().contains(k) ==> is_builtin_def(#[trigger] map@[k], k),
            i <= map.size(),
            map.size() == builtin_keys().len(),
            out@.len() == i,
            forall|j: int| 0 <= j < i ==> is_builtin_def(#[trigger] out@[j], builtin_keys()[j]),
        decreases map.size() - i,
    {
        let d = map.value(i);
        let r = d.duplicate();
        proof {
            map.lemma_view();
            assert(map.keys_seq()[i as int] == map.key_at(i as int));
            assert(builtin_keys().contains(builtin_keys()[i as int]));
            assert(closed_view(r.closed_values@) =~= closed_view(d.closed_values@));
        }
        out.push(r);
        i = i + 1;
    }
    out
}

} // verus!
