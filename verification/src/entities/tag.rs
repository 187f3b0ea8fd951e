//! Tags: labels for pages and blocks, written `#name`; a `/` in the name
//! makes them hierarchical (`#rust/async`).

use crate::clock::now_millis;
use crate::text::{concat2, str_starts_with, string_from_chars};
use vstd::prelude::*;
use crate::value_objects::Uuid;

verus! {

/// A tag of the knowledge graph. The creation time is in milliseconds
/// since the Unix epoch.
#[derive(Debug, Clone, PartialEq)]
pub struct Tag {
    /// The page the tag stands for.
    pub page_id: Uuid,
    /// The name, without `#`.
    pub name: String,
    /// Creation time.
    pub created_at: i64,
}

/// Whether `p` is the part of `s` before its first `/` (all of `s` when it
/// has none).
pub open spec fn is_first_segment(s: Seq<char>, p: Seq<char>) -> bool {
    &&& p.len() <= s.len()
    &&& s.take(p.len() as int) == p
    &&& !p.contains('/')
    &&& p.len() < s.len() ==> s[p.len() as int] == '/'
}

impl Tag {
    /// A tag named `name` for page `page_id`, created at `now`.
    pub fn new_at(page_id: Uuid, name: String, now: i64) -> (res: Tag)
        ensures
            res == (Tag { page_id, name, created_at: now }),
    {
        Tag { page_id, name, created_at: now }
    }

    /// A tag named `name` for page `page_id`, created now.
    pub fn new(page_id: Uuid, name: String) -> (res: Tag)
        ensures
            res.page_id == page_id,
            res.name == name,
    {
        let now = now_millis();
        Self::new_at(page_id, name, now)
    }

    /// The page the tag stands for.
    pub fn page_id(&self) -> (res: Uuid)
        ensures
            res == self.page_id,
    {
        self.page_id
    }

    /// The name, without `#`.
    pub fn name(&self) -> (res: &str)
        ensures
            res@ == self.name@,
    {
        self.name.as_str()
    }

    /// The name as written in text: `#` and the name.
    pub fn full_name(&self) -> (res: String)
        ensures
            res@ == "#"@ + self.name@,
    {
        concat2("#", self.name.as_str())
    }

    /// Whether this tag lies under `parent_name`: its name starts with the
    /// parent's name and a `/`.
    pub fn is_child_of(&self, parent_name: &str) -> (res: bool)
        ensures
            res == {
                let p = parent_name@ + "/"@;
                p.len() <= self.name@.len() && self.name@.take(p.len() as int) == p
            },
    {
        let prefix = concat2(parent_name, "/");
        let r = str_starts_with(self.name.as_str(), prefix.as_str());
        assert(self.name@.subrange(0, prefix@.len() as int) == self.name@.take(
            prefix@.len() as int,
        ));
        r
    }

    /// The first segment of the name, up to the first `/` (the whole name
    /// when it has none). There always is one.
    pub fn parent_name(&self) -> (res: Option<String>)
        ensures
            res matches Some(p) && is_first_segment(self.name@, p@),
    {
        let s = self.name.as_str();
        let n = s.unicode_len();
        let mut out: Vec<char> = Vec::new();
        let mut i: usize = 0;
        while i < n && s.get_char(i) != '/'
            invariant
                n == s@.len(),
                i <= n,
                out@ == s@.take(i as int),
                !out@.contains('/'),
            decreases n - i,
        {
            let c = s.get_char(i);
            out.push(c);
            proof {
                assert(s@.take(i + 1) == s@.take(i as int).push(c));
                assert forall|j: int| 0 <= j < out@.len() implies out@[j] != '/' by {
                    if j < i {
                        assert(out@[j] == s@.take(i as int)[j]);
                    }
                }
            }
            i = i + 1;
        }
        Some(string_from_chars(&out))
    }
}

} // verus!
