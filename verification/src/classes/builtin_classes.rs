//! The built-in classes. Their identifiers are the UUIDs
//! `00000000-0000-0000-0000-00000000000N`, numbered in the order below.

use crate::classes::types::Class;
use crate::value_objects::Uuid;
use vstd::prelude::*;

verus! {

/// The class with identifier number `n`, key `ident` and title `title`,
/// extending the class numbered `parent` if any, built in.
pub open spec fn is_builtin_class(c: Class, n: u128, ident: Seq<char>, title: Seq<char>, parent: Option<u128>) -> bool {
    &&& c.id == Uuid { value: n }
    &&& c.db_ident@ == ident
    &&& c.title@ == title
    &&& c.extends == match parent {
        Some(p) => Some(Uuid { value: p }),
        None => None::<Uuid>,
    }
    &&& c.required_properties@.len() == 0
    &&& c.default_properties@.len() == 0
    &&& c.icon is None
    &&& c.builtin
    &&& !c.user_defined
}

/// The built-in `root` class.
pub fn root() -> (res: Class)
    ensures
        is_builtin_class(res, 1, "root"@, "Root"@, None),
{
    Class::new(Uuid::from_u128(1), "root", "Root").builtin()
}

/// The built-in `tag` class.
pub fn tag() -> (res: Class)
    ensures
        is_builtin_class(res, 2, "tag"@, "Tag"@, Some(1u128)),
{
    Class::new(Uuid::from_u128(2), "tag", "Tag").with_extends(Uuid::from_u128(1)).builtin()
}

/// The built-in `page` class.
pub fn page() -> (res: Class)
    ensures
        is_builtin_class(res, 3, "page"@, "Page"@, Some(1u128)),
{
    Class::new(Uuid::from_u128(3), "page", "Page").with_extends(Uuid::from_u128(1)).builtin()
}

/// The built-in `journal` class.
pub fn journal() -> (res: Class)
    ensures
        is_builtin_class(res, 4, "journal"@, "Journal"@, Some(3u128)),
{
    Class::new(Uuid::from_u128(4), "journal", "Journal").with_extends(Uuid::from_u128(3)).builtin()
}

/// The built-in `task` class.
pub fn task() -> (res: Class)
    ensures
        is_builtin_class(res, 5, "task"@, "Task"@, Some(3u128)),
{
    Class::new(Uuid::from_u128(5), "task", "Task").with_extends(Uuid::from_u128(3)).builtin()
}

/// The built-in `query` class.
pub fn query() -> (res: Class)
    ensures
        is_builtin_class(res, 6, "query"@, "Query"@, None),
{
    Class::new(Uuid::from_u128(6), "query", "Query").builtin()
}

/// The built-in `property` class.
pub fn property_class() -> (res: Class)
    ensures
        is_builtin_class(res, 7, "property"@, "Property"@, None),
{
    Class::new(Uuid::from_u128(7), "property", "Property").builtin()
}

/// All built-in classes: root, tag, page, journal, task, query, property.
pub fn all() -> (res: Vec<Class>)
    ensures
        res@.len() == 7,
        is_builtin_class(res@[0], 1, "root"@, "Root"@, None),
        is_builtin_class(res@[1], 2, "tag"@, "Tag"@, Some(1u128)),
        is_builtin_class(res@[2], 3, "page"@, "Page"@, Some(1u128)),
        is_builtin_class(res@[3], 4, "journal"@, "Journal"@, Some(3u128)),
        is_builtin_class(res@[4], 5, "task"@, "Task"@, Some(3u128)),
        is_builtin_class(res@[5], 6, "query"@, "Query"@, None),
        is_builtin_class(res@[6], 7, "property"@, "Property"@, None),
{
    let mut v: Vec<Class> = Vec::new();
    v.push(root());
    v.push(tag());
    v.push(page());
    v.push(journal());
    v.push(task());
    v.push(query());
    v.push(property_class());
    v
}

/// The identifier of the root class.
pub fn root_id() -> (res: Uuid)
    ensures
        res == (Uuid { value: 1 }),
{
    Uuid::from_u128(1)
}

} // verus!
