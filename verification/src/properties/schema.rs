//! Property schemas: named sets of property keys that appear together.

use crate::clock::now_millis;
use crate::text::{ascii_lower_seq, chars_of};
use crate::value_objects::Uuid;
use vstd::prelude::*;

verus! {

/// A named set of property keys that frequently appear together.
#[derive(Debug, Clone)]
pub struct PropertySchema {
    /// Identifier.
    pub id: Uuid,
    /// Name.
    pub name: String,
    /// Description.
    pub description: String,
    /// The keys, in order.
    pub property_keys: Vec<String>,
    /// Whether it was detected from usage rather than defined by hand.
    pub auto_detected: bool,
    /// Creation time, in milliseconds since the Unix epoch.
    pub created_at: i64,
    /// Last update time, in milliseconds since the Unix epoch.
    pub updated_at: i64,
}

/// Whether two texts are equal when ASCII letters are compared without
/// regard to case.
pub open spec fn eq_ignore_ascii_case(a: Seq<char>, b: Seq<char>) -> bool {
    ascii_lower_seq(a) == ascii_lower_seq(b)
}

/// ASCII case-insensitive equality (`str::eq_ignore_ascii_case`).
pub fn str_eq_ignore_ascii_case(a: &str, b: &str) -> (res: bool)
    ensures
        res == eq_ignore_ascii_case(a@, b@),
{
    let x = chars_of(a);
    let y = chars_of(b);
    if x.len() != y.len() {
        assert(ascii_lower_seq(a@).len() != ascii_lower_seq(b@).len());
        return false;
    }
    let mut i: usize = 0;
    while i < x.len()
        invariant
            x@ == a@,
            y@ == b@,
            x@.len() == y@.len(),
            i <= x@.len(),
            forall|j: int| 0 <= j < i ==> crate::text::ascii_lower(#[trigger] x@[j]) == crate::text::ascii_lower(y@[j]),
        decreases x.len() - i,
    {
        let c = x[i];
        let d = y[i];
        let lc = if 'A' <= c && c <= 'Z' { ((c as u32) + 32) as u8 as char } else { c };
        let ld = if 'A' <= d && d <= 'Z' { ((d as u32) + 32) as u8 as char } else { d };
        if lc != ld {
            assert(ascii_lower_seq(a@)[i as int] != ascii_lower_seq(b@)[i as int]);
            return false;
        }
        i = i + 1;
    }
    assert(ascii_lower_seq(a@) =~= ascii_lower_seq(b@));
    true
}

impl PropertySchema {
    /// A schema created and updated at `now`.
    pub fn new_at(
        id: Uuid,
        name: &str,
        description: &str,
        property_keys: Vec<String>,
        auto_detected: bool,
        now: i64,
    ) -> (res: PropertySchema)
        ensures
            res.id == id,
            res.name@ == name@,
            res.description@ == description@,
            res.property_keys == property_keys,
            res.auto_detected == auto_detected,
            res.created_at == now,
            res.updated_at == now,
    {
        PropertySchema {
            id,
            name: name.to_owned(),
            description: description.to_owned(),
            property_keys,
            auto_detected,
            created_at: now,
            updated_at: now,
        }
    }

    /// A schema created and updated now.
    pub fn new(
        id: Uuid,
        name: &str,
        description: &str,
        property_keys: Vec<String>,
        auto_detected: bool,
    ) -> (res: PropertySchema)
        ensures
            res.id == id,
            res.name@ == name@,
            res.description@ == description@,
            res.property_keys == property_keys,
            res.auto_detected == auto_detected,
            res.created_at == res.updated_at,
    {
        let now = now_millis();
        Self::new_at(id, name, description, property_keys, auto_detected, now)
    }

    /// Whether the schema has `key`, compared without regard to ASCII case.
    pub fn contains_key(&self, key: &str) -> (res: bool)
        ensures
            res == exists|i: int|
                0 <= i < self.property_keys@.len() && eq_ignore_ascii_case(
                    (#[trigger] self.property_keys@[i])@,
                    key@,
                ),
    {
        let mut i: usize = 0;
        while i < self.property_keys.len()
            invariant
                i <= self.property_keys@.len(),
                forall|j: int|
                    0 <= j < i ==> !eq_ignore_ascii_case((#[trigger] self.property_keys@[j])@, key@),
            decreases self.property_keys.len() - i,
        {
            if str_eq_ignore_ascii_case(self.property_keys[i].as_str(), key) {
                return true;
            }
            i = i + 1;
        }
        false
    }
}

} // verus!
