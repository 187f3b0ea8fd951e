//! Property entries: a value with an optional last-update timestamp, and
//! the last-write-wins decision between two entries.

use crate::str_map::StrMap;
use crate::value_objects::{pv, PValue, PropertyValue};
use vstd::prelude::*;

verus! {

broadcast use vstd::seq_lib::lemma_seq_contains_after_push;

/// Last-write-wins: an entry updated at `a` gives way to one updated at `b`
/// when `b` is later, or when only `b` has a timestamp. Equal timestamps,
/// and two entries without one, keep the first.
pub open spec fn replaced_by(a: Option<i64>, b: Option<i64>) -> bool {
    match (a, b) {
        (Some(x), Some(y)) => y > x,
        (None, Some(_)) => true,
        _ => false,
    }
}

/// The last-write-wins decision between two timestamps.
pub fn should_be_replaced(a: Option<i64>, b: Option<i64>) -> (res: bool)
    ensures
        res == replaced_by(a, b),
{
    match (a, b) {
        (Some(x), Some(y)) => y > x,
        (None, Some(_)) => true,
        _ => false,
    }
}

/// A property value with an optional last-update time, in milliseconds
/// since the Unix epoch.
#[derive(Debug, PartialEq)]
pub struct DefaultPropertyEntry {
    /// The value.
    pub value: PropertyValue,
    /// When it was last updated, if known.
    pub updated_at: Option<i64>,
}

/// The content of an entry: its value's content and its timestamp.
pub open spec fn entry_view(e: DefaultPropertyEntry) -> (PValue, Option<i64>) {
    (pv(e.value), e.updated_at)
}

/// An entry that exposes a value.
pub trait HasValue {
    /// The type of the value.
    type Value;

    /// The value.
    fn value(&self) -> &Self::Value;
}

/// An entry with an optional last-update time, in milliseconds since the
/// Unix epoch. An entry without one loses to any timestamped entry under
/// last-write-wins.
pub trait HasTimestamp {
    /// The last-update time the entry carries.
    spec fn timestamp(&self) -> Option<i64>;

    /// The last-update time, if any.
    fn updated_at(&self) -> (res: Option<i64>)
        ensures
            res == self.timestamp(),
    ;

    /// Records an update at `ts` (an entry may have nowhere to keep it).
    fn set_updated_at(&mut self, ts: i64);
}

/// An entry that decides whether a newer entry replaces it. The default
/// decision is last-write-wins by timestamp (see `replaced_by`); an
/// implementation may decide otherwise.
pub trait Mergeable: HasTimestamp {
    /// Whether `other` replaces this entry in a merge.
    fn should_be_replaced_by(&self, other: &Self) -> (res: bool)
        default_ensures
            res == replaced_by(self.timestamp(), other.timestamp()),
    {
        should_be_replaced(self.updated_at(), other.updated_at())
    }
}

/// An entry with a value and a timestamp, merged under `Mergeable`. Every
/// type with the three traits is one.
pub trait PropertyEntry: HasValue + HasTimestamp + Mergeable {

}

impl<T: HasValue + HasTimestamp + Mergeable> PropertyEntry for T {

}

impl DefaultPropertyEntry {
    /// An entry without a timestamp.
    pub fn new(value: PropertyValue) -> (res: DefaultPropertyEntry)
        ensures
            res.value == value,
            res.updated_at is None,
    {
        DefaultPropertyEntry { value, updated_at: None }
    }

    /// An entry updated at `ts`.
    pub fn with_timestamp(value: PropertyValue, ts: i64) -> (res: DefaultPropertyEntry)
        ensures
            res.value == value,
            res.updated_at == Some(ts),
    {
        DefaultPropertyEntry { value, updated_at: Some(ts) }
    }
}

impl HasValue for DefaultPropertyEntry {
    type Value = PropertyValue;

    /// The value.
    fn value(&self) -> (res: &PropertyValue)
        ensures
            *res == self.value,
    {
        &self.value
    }
}

impl HasTimestamp for DefaultPropertyEntry {
    open spec fn timestamp(&self) -> Option<i64> {
        self.updated_at
    }

    /// The last-update time, if known.
    fn updated_at(&self) -> (res: Option<i64>) {
        self.updated_at
    }

    /// Records an update at `ts`; the value stays.
    fn set_updated_at(&mut self, ts: i64)
        ensures
            final(self).value == old(self).value,
            final(self).updated_at == Some(ts),
    {
        self.updated_at = Some(ts);
    }
}

impl Mergeable for DefaultPropertyEntry {

}

impl Clone for DefaultPropertyEntry {
    /// A copy with the same content.
    fn clone(&self) -> (res: Self)
        ensures
            entry_view(res) == entry_view(*self),
    {
        DefaultPropertyEntry { value: self.value.clone(), updated_at: self.updated_at }
    }
}

/// A bare property value is an entry of itself, without a timestamp: its
/// updates are not subject to last-write-wins.
impl HasValue for PropertyValue {
    type Value = PropertyValue;

    /// The value itself.
    fn value(&self) -> (res: &PropertyValue)
        ensures
            *res == *self,
    {
        self
    }
}

impl HasTimestamp for PropertyValue {
    open spec fn timestamp(&self) -> Option<i64> {
        None
    }

    /// Never a timestamp.
    fn updated_at(&self) -> (res: Option<i64>) {
        None
    }

    /// Does nothing: a bare value has nowhere to keep a timestamp.
    fn set_updated_at(&mut self, ts: i64)
        ensures
            *final(self) == *old(self),
    {
    }
}

impl Mergeable for PropertyValue {

}

/// The values of the entries, keyed as the entries are.
pub fn flatten_values(entries: &StrMap<DefaultPropertyEntry>) -> (res: StrMap<PropertyValue>)
    requires
        entries.wf(),
    ensures
        res.wf(),
        res@.dom() == entries@.dom(),
        forall|k: Seq<char>| #[trigger] res@.contains_key(k) ==> pv(res@[k]) == pv(entries@[k].value),
{
    proof {
        entries.lemma_view();
    }
    let mut out: StrMap<PropertyValue> = StrMap::new();
    let mut i: usize = 0;
    while i < entries.len()
        invariant
            entries.wf(),
            out.wf(),
            i <= entries.size(),
            entries.size() == entries.keys_seq().len(),
            forall|j: int| 0 <= j < entries.size() ==> #[trigger] entries.keys_seq()[j] == entries.key_at(j),
            forall|k: Seq<char>| entries@.contains_key(k) <==> entries.keys_seq().contains(k),
            entries.keys_seq().no_duplicates(),
            forall|k: Seq<char>| #[trigger] out@.contains_key(k) <==> entries.keys_seq().take(i as int).contains(k),
            forall|k: Seq<char>| #[trigger] out@.contains_key(k) ==> pv(out@[k]) == pv(entries@[k].value),
        decreases entries.size() - i,
    {
        let k = entries.key(i);
        let v = entries.value(i);
        let c = v.value.clone();
        proof {
            assert(entries.keys_seq().take(i + 1) =~= entries.keys_seq().take(i as int).push(k@));
        }
        out.insert(k.clone(), c);
        i = i + 1;
    }
    proof {
        assert(entries.keys_seq().take(entries.size() as int) =~= entries.keys_seq());
        assert(out@.dom() =~= entries@.dom());
    }
    out
}

} // verus!
