//! `RefIndex`: an in-memory bidirectional index of references. A forward
//! table lists what each source refers to; a reverse table lists, for each
//! target, what refers to it, so that back-links are read from the reverse
//! table alone. The two tables always mirror each other.

use crate::references::ref_type::RefType;
use crate::value_objects::Uuid;
use vstd::prelude::*;

verus! {

broadcast use vstd::seq_lib::lemma_seq_contains_after_push;

/// The mirror image of an entry: its first two components swapped.
pub open spec fn flip(e: (Uuid, Uuid, RefType)) -> (Uuid, Uuid, RefType) {
    (e.1, e.0, e.2)
}

/// Which entries a removal drops.
pub enum EdgeFilter {
    /// Exactly this entry.
    Exact(Uuid, Uuid, RefType),
    /// Every entry whose first component is this id.
    First(Uuid),
    /// Every entry whose second component is this id.
    Second(Uuid),
}

/// Whether `f` drops entry `e`.
pub open spec fn dropped(f: EdgeFilter, e: (Uuid, Uuid, RefType)) -> bool {
    match f {
        EdgeFilter::Exact(a, b, k) => e == (a, b, k),
        EdgeFilter::First(u) => e.0 == u,
        EdgeFilter::Second(u) => e.1 == u,
    }
}

/// Whether two entries are equal.
fn same_entry(a: &(Uuid, Uuid, RefType), b: &(Uuid, Uuid, RefType)) -> (res: bool)
    ensures
        res == (*a == *b),
{
    a.0.value == b.0.value && a.1.value == b.1.value && a.2 == b.2
}

/// Whether `f` drops `e`.
fn drops(f: &EdgeFilter, e: &(Uuid, Uuid, RefType)) -> (res: bool)
    ensures
        res == dropped(*f, *e),
{
    match f {
        EdgeFilter::Exact(a, b, k) => same_entry(e, &(*a, *b, *k)),
        EdgeFilter::First(u) => e.0.value == u.value,
        EdgeFilter::Second(u) => e.1.value == u.value,
    }
}

/// Whether `v` holds `e`.
fn holds(v: &Vec<(Uuid, Uuid, RefType)>, e: &(Uuid, Uuid, RefType)) -> (res: bool)
    ensures
        res == v@.contains(*e),
{
    let mut i: usize = 0;
    while i < v.len()
        invariant
            i <= v@.len(),
            forall|j: int| 0 <= j < i ==> v@[j] != *e,
        decreases v.len() - i,
    {
        if same_entry(&v[i], e) {
            assert(v@[i as int] == *e);
            return true;
        }
        i = i + 1;
    }
    false
}

/// The entries of `v` that `f` does not drop, in order.
fn retain(v: &Vec<(Uuid, Uuid, RefType)>, f: &EdgeFilter) -> (res: Vec<(Uuid, Uuid, RefType)>)
    requires
        v@.no_duplicates(),
    ensures
        res@.no_duplicates(),
        forall|e: (Uuid, Uuid, RefType)| #[trigger]
            res@.contains(e) <==> (v@.contains(e) && !dropped(*f, e)),
{
    let mut out: Vec<(Uuid, Uuid, RefType)> = Vec::new();
    let mut i: usize = 0;
    while i < v.len()
        invariant
            i <= v@.len(),
            v@.no_duplicates(),
            out@.no_duplicates(),
            forall|e: (Uuid, Uuid, RefType)| #[trigger]
                out@.contains(e) <==> (v@.take(i as int).contains(e) && !dropped(*f, e)),
        decreases v.len() - i,
    {
        let e = v[i];
        proof {
            assert(v@.take(i + 1) =~= v@.take(i as int).push(e));
            assert(!v@.take(i as int).contains(e)) by {
                if v@.take(i as int).contains(e) {
                    let j = choose|j: int| 0 <= j < i && v@.take(i as int)[j] == e;
                    assert(v@[j] == v@[i as int]);
                }
            }
        }
        if !drops(f, &e) {
            proof {
                assert(!out@.contains(e));
            }
            out.push(e);
        }
        i = i + 1;
    }
    assert(v@.take(v@.len() as int) =~= v@);
    out
}

/// The pairs `(e.1, e.2)` of the entries `e` of `v` with `e.0 == key`, in order.
fn project(v: &Vec<(Uuid, Uuid, RefType)>, key: Uuid) -> (res: Vec<(Uuid, RefType)>)
    requires
        v@.no_duplicates(),
    ensures
        res@.no_duplicates(),
        forall|p: (Uuid, RefType)| #[trigger]
            res@.contains(p) <==> v@.contains((key, p.0, p.1)),
{
    let mut out: Vec<(Uuid, RefType)> = Vec::new();
    let mut i: usize = 0;
    while i < v.len()
        invariant
            i <= v@.len(),
            v@.no_duplicates(),
            out@.no_duplicates(),
            forall|p: (Uuid, RefType)| #[trigger]
                out@.contains(p) <==> v@.take(i as int).contains((key, p.0, p.1)),
        decreases v.len() - i,
    {
        let e = v[i];
        proof {
            assert(v@.take(i + 1) =~= v@.take(i as int).push(e));
            assert(!v@.take(i as int).contains(e)) by {
                if v@.take(i as int).contains(e) {
                    let j = choose|j: int| 0 <= j < i && v@.take(i as int)[j] == e;
                    assert(v@[j] == v@[i as int]);
                }
            }
        }
        if e.0.value == key.value {
            let p = (e.1, e.2);
            proof {
                assert(!out@.contains(p));
            }
            out.push(p);
        }
        i = i + 1;
    }
    assert(v@.take(v@.len() as int) =~= v@);
    out
}

/// The `(source, type)` pairs of the references to `target`.
pub open spec fn backlink_set(v: Set<(Uuid, Uuid, RefType)>, target: Uuid) -> Set<(Uuid, RefType)> {
    Set::new(|p: (Uuid, RefType)| v.contains((p.0, target, p.1)))
}

/// The `(target, type)` pairs of the references from `source`.
pub open spec fn forward_set(v: Set<(Uuid, Uuid, RefType)>, source: Uuid) -> Set<(Uuid, RefType)> {
    Set::new(|p: (Uuid, RefType)| v.contains((source, p.0, p.1)))
}

/// The references that do not start at `source`.
pub open spec fn without_source(v: Set<(Uuid, Uuid, RefType)>, source: Uuid) -> Set<(Uuid, Uuid, RefType)> {
    v.filter(|e: (Uuid, Uuid, RefType)| e.0 != source)
}

/// The references that do not end at `target`.
pub open spec fn without_target(v: Set<(Uuid, Uuid, RefType)>, target: Uuid) -> Set<(Uuid, Uuid, RefType)> {
    v.filter(|e: (Uuid, Uuid, RefType)| e.1 != target)
}

/// The sources that refer to anything.
pub open spec fn source_set(v: Set<(Uuid, Uuid, RefType)>) -> Set<Uuid> {
    Set::new(|s: Uuid| exists|t: Uuid, k: RefType| v.contains((s, t, k)))
}

/// An in-memory bidirectional reference index.
#[derive(Debug, Clone)]
pub struct RefIndex {
    /// `(source, target, type)` entries.
    forward: Vec<(Uuid, Uuid, RefType)>,
    /// `(target, source, type)` entries: the forward entries, flipped.
    reverse: Vec<(Uuid, Uuid, RefType)>,
}

impl RefIndex {
    /// The references held, as `(source, target, type)` triples.
    pub closed spec fn view(&self) -> Set<(Uuid, Uuid, RefType)> {
        self.forward@.to_set()
    }

    /// The entries of the reverse table, as `(target, source, type)` triples.
    pub closed spec fn reverse_view(&self) -> Set<(Uuid, Uuid, RefType)> {
        self.reverse@.to_set()
    }

    /// Neither table holds an entry twice, and the reverse table holds
    /// exactly the flipped forward entries.
    pub closed spec fn wf(&self) -> bool {
        &&& self.forward@.no_duplicates()
        &&& self.reverse@.no_duplicates()
        &&& forall|e: (Uuid, Uuid, RefType)| #[trigger]
            self.forward@.contains(e) <==> self.reverse@.contains(flip(e))
    }

    /// The reverse table holds a `(target, source, type)` entry exactly when
    /// the index holds the reference `(source, target, type)`.
    pub proof fn lemma_mirror(&self)
        requires
            self.wf(),
        ensures
            forall|e: (Uuid, Uuid, RefType)| #[trigger]
                self@.contains(e) <==> self.reverse_view().contains(flip(e)),
    {
        assert forall|e: (Uuid, Uuid, RefType)| #[trigger]
            self@.contains(e) <==> self.reverse_view().contains(flip(e)) by {
            assert(self.forward@.contains(e) <==> self.reverse@.contains(flip(e)));
        }
    }

    /// An empty index.
    pub fn new() -> (res: RefIndex)
        ensures
            res.wf(),
            res@ == Set::<(Uuid, Uuid, RefType)>::empty(),
    {
        let res = RefIndex { forward: Vec::new(), reverse: Vec::new() };
        assert(res@ =~= Set::<(Uuid, Uuid, RefType)>::empty());
        res
    }

    /// Records that `source` refers to `target` with `ref_type`, in both
    /// tables. Adding a reference that is already there changes nothing.
    pub fn add_ref(&mut self, source: Uuid, target: Uuid, ref_type: RefType)
        requires
            old(self).wf(),
        ensures
            final(self).wf(),
            final(self)@ == old(self)@.insert((source, target, ref_type)),
    {
        let e = (source, target, ref_type);
        let r = (target, source, ref_type);
        if !holds(&self.forward, &e) {
            proof {
                assert(!self.reverse@.contains(r));
                assert forall|x: (Uuid, Uuid, RefType)| #[trigger]
                    self.forward@.push(e).contains(x) <==> self.reverse@.push(r).contains(flip(x)) by {
                    assert(self.forward@.contains(x) <==> self.reverse@.contains(flip(x)));
                }
                assert(self.forward@.push(e).to_set() =~= self.forward@.to_set().insert(e));
            }
            self.forward.push(e);
            self.reverse.push(r);
        } else {
            assert(self.forward@.to_set() =~= self.forward@.to_set().insert(e));
        }
    }

    /// Replaces both tables by what the two filters keep of them.
    fn retain_both(&mut self, f: EdgeFilter, r: EdgeFilter)
        requires
            old(self).wf(),
            forall|e: (Uuid, Uuid, RefType)| dropped(f, e) == #[trigger] dropped(r, flip(e)),
        ensures
            final(self).wf(),
            final(self)@ == old(self)@.filter(|e: (Uuid, Uuid, RefType)| !dropped(f, e)),
    {
        let nf = retain(&self.forward, &f);
        let nr = retain(&self.reverse, &r);
        proof {
            assert forall|e: (Uuid, Uuid, RefType)| #[trigger]
                nf@.contains(e) <==> nr@.contains(flip(e)) by {
                assert(dropped(f, e) == dropped(r, flip(e)));
                assert(self.forward@.contains(e) <==> self.reverse@.contains(flip(e)));
            }
            assert(nf@.to_set() =~= self.forward@.to_set().filter(
                |e: (Uuid, Uuid, RefType)| !dropped(f, e),
            ));
        }
        self.forward = nf;
        self.reverse = nr;
    }

    /// Removes the reference from `source` to `target` of type `ref_type`
    /// from both tables; other references are untouched.
    pub fn remove_ref(&mut self, source: Uuid, target: Uuid, ref_type: RefType)
        requires
            old(self).wf(),
        ensures
            final(self).wf(),
            final(self)@ == old(self)@.remove((source, target, ref_type)),
    {
        let ghost old_view = self@;
        let f = EdgeFilter::Exact(source, target, ref_type);
        let r = EdgeFilter::Exact(target, source, ref_type);
        assert forall|e: (Uuid, Uuid, RefType)| dropped(f, e) == #[trigger] dropped(r, flip(e)) by {
        }
        self.retain_both(f, r);
        assert(self@ =~= old_view.remove((source, target, ref_type)));
    }

    /// Removes every reference from `source`, from both tables.
    pub fn remove_all_from_source(&mut self, source: Uuid)
        requires
            old(self).wf(),
        ensures
            final(self).wf(),
            final(self)@ == without_source(old(self)@, source),
    {
        let ghost old_view = self@;
        let f = EdgeFilter::First(source);
        let r = EdgeFilter::Second(source);
        assert forall|e: (Uuid, Uuid, RefType)| dropped(f, e) == #[trigger] dropped(r, flip(e)) by {
        }
        self.retain_both(f, r);
        assert(self@ =~= without_source(old_view, source));
    }

    /// Removes every reference to `target`, from both tables.
    pub fn remove_all_to_target(&mut self, target: Uuid)
        requires
            old(self).wf(),
        ensures
            final(self).wf(),
            final(self)@ == without_target(old(self)@, target),
    {
        let ghost old_view = self@;
        let f = EdgeFilter::Second(target);
        let r = EdgeFilter::First(target);
        assert forall|e: (Uuid, Uuid, RefType)| dropped(f, e) == #[trigger] dropped(r, flip(e)) by {
        }
        self.retain_both(f, r);
        assert(self@ =~= without_target(old_view, target));
    }

    /// The `(source, type)` pairs of the references to `target`, each once,
    /// read from the reverse table.
    pub fn get_backlinks(&self, target: Uuid) -> (res: Vec<(Uuid, RefType)>)
        requires
            self.wf(),
        ensures
            res@.no_duplicates(),
            res@.to_set() == backlink_set(self@, target),
    {
        let res = project(&self.reverse, target);
        proof {
            assert forall|p: (Uuid, RefType)| #[trigger]
                res@.to_set().contains(p) == backlink_set(self@, target).contains(p) by {
                assert(self.forward@.contains((p.0, target, p.1)) <==> self.reverse@.contains(
                    flip((p.0, target, p.1)),
                ));
            }
            assert(res@.to_set() =~= backlink_set(self@, target));
        }
        res
    }

    /// The `(target, type)` pairs of the references from `source`, each once.
    pub fn get_forward_refs(&self, source: Uuid) -> (res: Vec<(Uuid, RefType)>)
        requires
            self.wf(),
        ensures
            res@.no_duplicates(),
            res@.to_set() == forward_set(self@, source),
    {
        let res = project(&self.forward, source);
        assert(res@.to_set() =~= forward_set(self@, source));
        res
    }

    /// The number of `(source, type)` pairs referring to `target`.
    pub fn backlink_count(&self, target: Uuid) -> (res: usize)
        requires
            self.wf(),
        ensures
            res == backlink_set(self@, target).len(),
    {
        let b = self.get_backlinks(target);
        proof {
            b@.unique_seq_to_set();
        }
        b.len()
    }

    /// The number of `(target, type)` pairs referred to from `source`.
    pub fn forward_count(&self, source: Uuid) -> (res: usize)
        requires
            self.wf(),
        ensures
            res == forward_set(self@, source).len(),
    {
        let f = self.get_forward_refs(source);
        proof {
            f@.unique_seq_to_set();
        }
        f.len()
    }

    /// Whether the index holds no reference.
    pub fn is_empty(&self) -> (res: bool)
        requires
            self.wf(),
        ensures
            res == (self@ == Set::<(Uuid, Uuid, RefType)>::empty()),
    {
        proof {
            if self.forward@.len() > 0 {
                assert(self@.contains(self.forward@[0]));
            } else {
                assert(self@ =~= Set::<(Uuid, Uuid, RefType)>::empty());
            }
            if self.reverse@.len() > 0 {
                let r = self.reverse@[0];
                assert(self.reverse@.contains(flip(flip(r))));
                assert(self.forward@.contains(flip(r)));
            }
        }
        self.forward.len() == 0 && self.reverse.len() == 0
    }

    /// The number of distinct sources that refer to something.
    pub fn len(&self) -> (res: usize)
        requires
            self.wf(),
        ensures
            res == source_set(self@).len(),
    {
        let mut seen: Vec<Uuid> = Vec::new();
        let mut i: usize = 0;
        while i < self.forward.len()
            invariant
                i <= self.forward@.len(),
                seen@.no_duplicates(),
                seen@.len() <= i,
                forall|s: Uuid| #[trigger]
                    seen@.contains(s) <==> exists|j: int|
                        0 <= j < i && (#[trigger] self.forward@[j]).0 == s,
            decreases self.forward.len() - i,
        {
            let s = self.forward[i].0;
            let mut found = false;
            let mut m: usize = 0;
            while m < seen.len()
                invariant
                    m <= seen@.len(),
                    found == exists|q: int| 0 <= q < m && seen@[q] == s,
                decreases seen.len() - m,
            {
                if seen[m].value == s.value {
                    found = true;
                }
                m = m + 1;
            }
            if !found {
                proof {
                    assert forall|x: Uuid| #[trigger]
                        seen@.push(s).contains(x) <==> exists|j: int|
                            0 <= j < i + 1 && (#[trigger] self.forward@[j]).0 == x by {
                        if seen@.push(s).contains(x) && x != s {
                            let q = choose|q: int|
                                0 <= q < seen@.len() + 1 && seen@.push(s)[q] == x;
                            assert(seen@.contains(x));
                        }
                        if x == s {
                            assert(self.forward@[i as int].0 == x);
                        }
                        if (exists|j: int| 0 <= j < i + 1 && (#[trigger] self.forward@[j]).0 == x)
                            && x != s {
                            let j = choose|j: int|
                                0 <= j < i + 1 && (#[trigger] self.forward@[j]).0 == x;
                            assert(j < i);
                        }
                    }
                }
                seen.push(s);
            } else {
                proof {
                    let q = choose|q: int| 0 <= q < seen@.len() && seen@[q] == s;
                    assert(seen@.contains(s));
                    assert forall|x: Uuid| #[trigger]
                        seen@.contains(x) <==> exists|j: int|
                            0 <= j < i + 1 && (#[trigger] self.forward@[j]).0 == x by {
                        if (exists|j: int| 0 <= j < i + 1 && (#[trigger] self.forward@[j]).0 == x)
                            && x != s {
                            let j = choose|j: int|
                                0 <= j < i + 1 && (#[trigger] self.forward@[j]).0 == x;
                            assert(j < i);
                        }
                    }
                }
            }
            i = i + 1;
        }
        proof {
            seen@.unique_seq_to_set();
            assert forall|s: Uuid| #[trigger]
                seen@.to_set().contains(s) == source_set(self@).contains(s) by {
                if seen@.contains(s) {
                    let j = choose|j: int|
                        0 <= j < self.forward@.len() && (#[trigger] self.forward@[j]).0 == s;
                    let e = self.forward@[j];
                    assert(self@.contains((s, e.1, e.2)));
                }
                if source_set(self@).contains(s) {
                    let (t, k) = choose|t: Uuid, k: RefType| self@.contains((s, t, k));
                    let j = choose|j: int|
                        0 <= j < self.forward@.len() && self.forward@[j] == (s, t, k);
                    assert(self.forward@[j].0 == s);
                }
            }
            assert(seen@.to_set() =~= source_set(self@));
        }
        seen.len()
    }

    /// Removes every reference.
    pub fn clear(&mut self)
        ensures
            final(self).wf(),
            final(self)@ == Set::<(Uuid, Uuid, RefType)>::empty(),
    {
        self.forward = Vec::new();
        self.reverse = Vec::new();
        assert(self@ =~= Set::<(Uuid, Uuid, RefType)>::empty());
    }
}

impl Default for RefIndex {
    /// An empty index.
    fn default() -> (res: Self)
        ensures
            res.wf(),
            res@ == Set::<(Uuid, Uuid, RefType)>::empty(),
    {
        RefIndex::new()
    }
}

/// Removing a reference that was not there before adding it gives back the
/// index as it was.
pub proof fn lemma_remove_undoes_add(v: Set<(Uuid, Uuid, RefType)>, e: (Uuid, Uuid, RefType))
    requires
        !v.contains(e),
    ensures
        v.insert(e).remove(e) == v,
{
    assert(v.insert(e).remove(e) =~= v);
}

/// Adding a reference twice is the same as adding it once.
pub proof fn lemma_add_idempotent(v: Set<(Uuid, Uuid, RefType)>, e: (Uuid, Uuid, RefType))
    ensures
        v.insert(e).insert(e) == v.insert(e),
{
    assert(v.insert(e).insert(e) =~= v.insert(e));
}

/// After adding a reference, the target's back-links hold its source and
/// the source's forward references hold its target.
pub proof fn lemma_add_is_visible_both_ways(
    v: Set<(Uuid, Uuid, RefType)>,
    source: Uuid,
    target: Uuid,
    k: RefType,
)
    ensures
        backlink_set(v.insert((source, target, k)), target).contains((source, k)),
        forward_set(v.insert((source, target, k)), source).contains((target, k)),
{
}

/// After removing every reference from a source, it has no forward
/// references and appears in no back-link.
pub proof fn lemma_remove_all_from_source(v: Set<(Uuid, Uuid, RefType)>, source: Uuid, t: Uuid)
    ensures
        forward_set(without_source(v, source), source)
            == Set::<(Uuid, RefType)>::empty(),
        forall|k: RefType|
            !#[trigger] backlink_set(without_source(v, source), t).contains(
                (source, k),
            ),
{
    assert(forward_set(without_source(v, source), source)
        =~= Set::<(Uuid, RefType)>::empty());
}

} // verus!
