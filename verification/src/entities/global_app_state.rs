//! `GlobalAppState`: the state kept outside any single graph: the last
//! opened graph, a bounded most-recent-first list of recent graphs, and the
//! right sidebar's visibility. Paths are kept as their text.

use crate::content::block_segment::strs_view;
use crate::text::str_eq;
use vstd::prelude::*;

verus! {

/// How many recent graphs are remembered.
pub const RECENTS_CAP: usize = 10;

/// The state kept across graphs.
#[derive(Debug, Clone, PartialEq, Eq)]
pub struct GlobalAppState {
    /// The graph opened last, even if it is no longer valid.
    pub last_opened_graph: Option<String>,
    /// Recent graphs, most recent first, each once, at most `RECENTS_CAP`.
    pub recent_graphs: Vec<String>,
    /// Whether the right sidebar is shown, if known.
    pub right_sidebar_visible: Option<bool>,
}

/// The test that keeps every path but `p`.
pub open spec fn other_than(p: Seq<char>) -> spec_fn(Seq<char>) -> bool {
    |x: Seq<char>| x != p
}

/// `recents` after pushing `p`: `p` first, then the others without `p`, cut
/// to `RECENTS_CAP`.
pub open spec fn pushed(recents: Seq<Seq<char>>, p: Seq<char>) -> Seq<Seq<char>> {
    let r = seq![p] + recents.filter(other_than(p));
    if r.len() > 10 {
        r.take(10)
    } else {
        r
    }
}

/// The recents after pushing each path in turn.
pub open spec fn pushed_all(recents: Seq<Seq<char>>, paths: Seq<Seq<char>>) -> Seq<Seq<char>>
    decreases paths.len(),
{
    if paths.len() == 0 {
        recents
    } else {
        pushed(pushed_all(recents, paths.drop_last()), paths.last())
    }
}

impl Default for GlobalAppState {
    /// Nothing opened, no recents, sidebar unknown.
    fn default() -> (res: Self)
        ensures
            res.last_opened_graph is None,
            res.recent_graphs@.len() == 0,
            res.right_sidebar_visible is None,
    {
        GlobalAppState { last_opened_graph: None, recent_graphs: Vec::new(), right_sidebar_visible: None }
    }
}

impl GlobalAppState {
    /// The state, with the recent graphs pushed in order (so the last one
    /// given ends up first, duplicates dropped, and at most `RECENTS_CAP`
    /// kept).
    pub fn new(
        last_opened_graph: Option<String>,
        recent_graphs: Vec<String>,
        right_sidebar_visible: Option<bool>,
    ) -> (res: GlobalAppState)
        ensures
            res.last_opened_graph == last_opened_graph,
            res.right_sidebar_visible == right_sidebar_visible,
            strs_view(res.recent_graphs@) == pushed_all(Seq::empty(), strs_view(recent_graphs@)),
    {
        let ghost paths = strs_view(recent_graphs@);
        let mut state = GlobalAppState {
            last_opened_graph,
            recent_graphs: Vec::new(),
            right_sidebar_visible,
        };
        assert(strs_view(state.recent_graphs@) =~= Seq::<Seq<char>>::empty());
        let mut rest = recent_graphs;
        let n = rest.len();
        let mut i: usize = 0;
        while i < n
            invariant
                n == paths.len(),
                i <= n,
                rest@.len() == n - i,
                strs_view(rest@) == paths.subrange(i as int, n as int),
                state.last_opened_graph == last_opened_graph,
                state.right_sidebar_visible == right_sidebar_visible,
                strs_view(state.recent_graphs@) == pushed_all(Seq::empty(), paths.take(i as int)),
            decreases n - i,
        {
            let ghost before = strs_view(rest@);
            let ghost old_rest = rest@;
            let g = rest.remove(0);
            proof {
                assert(before[0] == g@);
                assert forall|k: int| 0 <= k < rest@.len() implies #[trigger] strs_view(rest@)[k] == paths[i + 1 + k] by {
                    assert(rest@[k] == old_rest[k + 1]);
                    assert(before[k + 1] == paths[i + 1 + k]);
                }
                assert(strs_view(rest@) =~= paths.subrange(i + 1, n as int));
                assert(paths.take(i + 1).drop_last() =~= paths.take(i as int));
                assert(paths[i as int] == before[0]);
            }
            state.push_recent(g);
            i = i + 1;
        }
        assert(paths.take(n as int) =~= paths);
        state
    }

    /// Moves `path` to the head of the recent graphs (removing an earlier
    /// occurrence rather than repeating it) and keeps at most `RECENTS_CAP`.
    pub fn push_recent(&mut self, path: String)
        ensures
            strs_view(final(self).recent_graphs@) == pushed(strs_view(old(self).recent_graphs@), path@),
            final(self).last_opened_graph == old(self).last_opened_graph,
            final(self).right_sidebar_visible == old(self).right_sidebar_visible,
    {
        let ghost old_r = strs_view(self.recent_graphs@);
        let mut kept: Vec<String> = Vec::new();
        kept.push(path.clone());
        let mut i: usize = 0;
        while i < self.recent_graphs.len()
            invariant
                old_r == strs_view(self.recent_graphs@),
                i <= old_r.len(),
                strs_view(kept@) == seq![path@] + old_r.take(i as int).filter(other_than(path@)),
            decreases self.recent_graphs.len() - i,
        {
            proof {
                assert(old_r.take(i + 1).drop_last() =~= old_r.take(i as int));
                reveal(Seq::filter);
            }
            if !str_eq(self.recent_graphs[i].as_str(), path.as_str()) {
                let c = self.recent_graphs[i].clone();
                proof {
                    assert(strs_view(kept@.push(c)) =~= strs_view(kept@).push(c@));
                }
                kept.push(c);
            }
            i = i + 1;
        }
        assert(old_r.take(old_r.len() as int) =~= old_r);
        if kept.len() > RECENTS_CAP {
            let ghost before = strs_view(kept@);
            kept.truncate(RECENTS_CAP);
            assert(strs_view(kept@) =~= before.take(10));
        }
        self.recent_graphs = kept;
    }
}

/// Filtering keeps a sequence free of duplicates.
proof fn lemma_filter_no_dup(s: Seq<Seq<char>>, p: Seq<char>)
    requires
        s.no_duplicates(),
    ensures
        s.filter(other_than(p)).no_duplicates(),
    decreases s.len(),
{
    reveal(Seq::filter);
    if s.len() > 0 {
        let d = s.drop_last();
        assert(d.no_duplicates()) by {
            assert forall|i: int, j: int| 0 <= i < d.len() && 0 <= j < d.len() && i != j implies d[i] != d[j] by {
                assert(d[i] == s[i] && d[j] == s[j]);
            }
        }
        lemma_filter_no_dup(d, p);
        let f = d.filter(other_than(p));
        if s.last() != p {
            assert(!f.contains(s.last())) by {
                if f.contains(s.last()) {
                    d.lemma_filter_contains_rev(other_than(p), s.last());
                    let k = choose|k: int| 0 <= k < d.len() && d[k] == s.last();
                    assert(s[k] == s[s.len() - 1]);
                }
            }
            assert forall|i: int, j: int| 0 <= i < f.len() + 1 && 0 <= j < f.len() + 1 && i != j implies f.push(s.last())[i] != f.push(s.last())[j] by {
                if i == f.len() {
                    assert(f.contains(f[j]));
                } else if j == f.len() {
                    assert(f.contains(f[i]));
                }
            }
        }
    }
}

/// After a push, the path is the most recent graph, no graph appears twice
/// if none did before, and there are at most `RECENTS_CAP`.
pub proof fn lemma_push_recent(recents: Seq<Seq<char>>, p: Seq<char>)
    requires
        recents.no_duplicates(),
    ensures
        pushed(recents, p)[0] == p,
        pushed(recents, p).len() <= 10,
        pushed(recents, p).no_duplicates(),
        forall|q: Seq<char>| recents.contains(q) && q != p && recents.filter(other_than(p)).len() < 10 ==> #[trigger] pushed(recents, p).contains(q),
{
    let f = recents.filter(other_than(p));
    lemma_filter_no_dup(recents, p);
    #[allow(deprecated)]
    recents.filter_lemma(other_than(p));
    let r = seq![p] + f;
    assert(pushed(recents, p) == if r.len() > 10 { r.take(10) } else { r });
    assert forall|i: int, j: int| 0 <= i < r.len() && 0 <= j < r.len() && i != j implies r[i] != r[j] by {
        if i == 0 && j > 0 {
            assert(r[j] == f[j - 1]);
            assert(f.contains(f[j - 1]));
        } else if j == 0 && i > 0 {
            assert(r[i] == f[i - 1]);
            assert(f.contains(f[i - 1]));
        } else if i > 0 && j > 0 {
            assert(r[i] == f[i - 1]);
            assert(r[j] == f[j - 1]);
        }
    }
    if r.len() > 10 {
        assert forall|i: int, j: int| 0 <= i < 10 && 0 <= j < 10 && i != j implies r.take(10)[i] != r.take(10)[j] by {
            assert(r.take(10)[i] == r[i] && r.take(10)[j] == r[j]);
        }
    }
    assert forall|q: Seq<char>| recents.contains(q) && q != p && f.len() < 10 implies #[trigger] pushed(recents, p).contains(q) by {
        let i0 = choose|i0: int| 0 <= i0 < recents.len() && recents[i0] == q;
        assert(f.contains(recents[i0]));
        let k = choose|k: int| 0 <= k < f.len() && f[k] == q;
        assert(r[k + 1] == q);
        assert(pushed(recents, p) == r);
    }
}

} // verus!
