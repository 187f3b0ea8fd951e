//! Block content as a sequence of typed segments: text, references, images,
//! code, tables, dates and tags.

pub mod block_segment;
pub mod mark;
pub mod parser;

use crate::content::mark::{Mark, MarkV};
use crate::content::block_segment::{clone_marks, marks_view, seg_len, strs_view, sub_string, BlockSegment, SegV};
use crate::text::{chars_of, lowercase_of, seq_contains_run, str_contains, to_lowercase};
use vstd::prelude::*;

verus! {

/// The contents of a sequence of segments.
pub open spec fn segs_view(v: Seq<BlockSegment>) -> Seq<SegV> {
    v.map_values(|s: BlockSegment| s@)
}

/// Total number of plain-text characters of the segments.
pub open spec fn total_len(s: Seq<SegV>) -> nat
    decreases s.len(),
{
    if s.len() == 0 {
        0
    } else {
        total_len(s.drop_last()) + seg_len(s.last())
    }
}

/// The text segments' contents, each separated from the text before it by
/// one space once that text is non-empty; other segments contribute nothing.
pub open spec fn plain_text(s: Seq<SegV>) -> Seq<char>
    decreases s.len(),
{
    if s.len() == 0 {
        Seq::empty()
    } else {
        let r = plain_text(s.drop_last());
        match s.last() {
            SegV::Text(c, _) => if r.len() > 0 {
                r + " "@ + c
            } else {
                c
            },
            _ => r,
        }
    }
}

/// A text segment with no characters and no marks.
pub open spec fn is_blank_text(s: SegV) -> bool {
    s matches SegV::Text(c, m) && c.len() == 0 && m.len() == 0
}

/// The targets of the page references, in order.
pub open spec fn page_targets(s: Seq<SegV>) -> Seq<Seq<char>>
    decreases s.len(),
{
    if s.len() == 0 {
        Seq::empty()
    } else {
        let r = page_targets(s.drop_last());
        match s.last() {
            SegV::PageRef(t, _) => r.push(t),
            _ => r,
        }
    }
}

/// The targets of the block references, in order.
pub open spec fn block_targets(s: Seq<SegV>) -> Seq<Seq<char>>
    decreases s.len(),
{
    if s.len() == 0 {
        Seq::empty()
    } else {
        let r = block_targets(s.drop_last());
        match s.last() {
            SegV::BlockRef(t) => r.push(t),
            _ => r,
        }
    }
}

/// The first segment, from `k` on, that reaches past plain-text position
/// `pos`; the length of `s` if there is none.
pub open spec fn split_index(s: Seq<SegV>, pos: int, k: int) -> int
    decreases s.len() - k,
{
    if k >= s.len() || total_len(s.take(k)) + seg_len(s[k]) > pos {
        k
    } else {
        split_index(s, pos, k + 1)
    }
}

/// The segments before plain-text position `pos` (see `BlockContent::split_at`).
pub open spec fn split_left(s: Seq<SegV>, pos: int) -> Seq<SegV> {
    if pos == 0 {
        Seq::empty()
    } else if pos >= total_len(s) {
        s
    } else {
        let k = split_index(s, pos, 0);
        let off = pos - total_len(s.take(k));
        match s[k] {
            SegV::Text(c, m) => s.take(k) + if off > 0 {
                seq![SegV::Text(c.take(off), m)]
            } else {
                Seq::empty()
            },
            _ => s.take(k + 1),
        }
    }
}

/// The segments from plain-text position `pos` on (see `BlockContent::split_at`).
pub open spec fn split_right(s: Seq<SegV>, pos: int) -> Seq<SegV> {
    if pos == 0 {
        s
    } else if pos >= total_len(s) {
        Seq::empty()
    } else {
        let k = split_index(s, pos, 0);
        let off = pos - total_len(s.take(k));
        match s[k] {
            SegV::Text(c, m) => (if off < c.len() {
                seq![SegV::Text(c.skip(off), m)]
            } else {
                Seq::empty()
            }) + s.skip(k + 1),
            _ => s.skip(k + 1),
        }
    }
}

/// `total_len` of one more segment.
proof fn lemma_total_take(s: Seq<SegV>, i: int)
    requires
        0 <= i < s.len(),
    ensures
        total_len(s.take(i + 1)) == total_len(s.take(i)) + seg_len(s[i]),
{
    assert(s.take(i + 1).drop_last() =~= s.take(i));
}

/// The plain-text length of a prefix is at most that of the whole.
proof fn lemma_total_mono(s: Seq<SegV>, a: int)
    requires
        0 <= a <= s.len(),
    ensures
        total_len(s.take(a)) <= total_len(s),
    decreases s.len(),
{
    if a < s.len() {
        lemma_total_mono(s.drop_last(), a);
        assert(s.drop_last().take(a) =~= s.take(a));
    } else {
        assert(s.take(a) =~= s);
    }
}

/// `segs_view` of one more segment.
proof fn lemma_segs_push(v: Seq<BlockSegment>, x: BlockSegment)
    ensures
        segs_view(v.push(x)) == segs_view(v).push(x@),
{
    assert(segs_view(v.push(x)) =~= segs_view(v).push(x@));
}

/// A block's content: a sequence of typed segments.
#[derive(Debug, PartialEq)]
pub struct BlockContent {
    /// The segments, in order.
    pub segments: Vec<BlockSegment>,
}

impl BlockContent {
    /// The contents of the segments.
    pub open spec fn view(&self) -> Seq<SegV> {
        segs_view(self.segments@)
    }

    /// Content made of one unmarked text segment.
    pub fn from_text(text: &str) -> (res: BlockContent)
        ensures
            res@ == seq![SegV::Text(text@, Seq::empty())],
    {
        let marks: Vec<Mark> = Vec::new();
        assert(marks_view(marks@) =~= Seq::<MarkV>::empty());
        let seg = BlockSegment::Text { content: text.to_owned(), marks };
        let mut segments: Vec<BlockSegment> = Vec::new();
        segments.push(seg);
        let res = BlockContent { segments };
        assert(res@ =~= seq![SegV::Text(text@, Seq::empty())]);
        res
    }

    /// Content with no segments.
    pub fn empty() -> (res: BlockContent)
        ensures
            res@ == Seq::<SegV>::empty(),
    {
        let res = BlockContent { segments: Vec::new() };
        assert(res@ =~= Seq::<SegV>::empty());
        res
    }

    /// Whether the content is empty: no segments, or only text segments with
    /// no characters and no marks.
    pub fn is_empty(&self) -> (res: bool)
        ensures
            res == (forall|i: int| 0 <= i < self@.len() ==> is_blank_text(#[trigger] self@[i])),
    {
        let mut i: usize = 0;
        while i < self.segments.len()
            invariant
                i <= self@.len(),
                self@.len() == self.segments@.len(),
                forall|j: int| 0 <= j < i ==> is_blank_text(#[trigger] self@[j]),
            decreases self.segments.len() - i,
        {
            let blank = match &self.segments[i] {
                BlockSegment::Text { content, marks } => content.unicode_len() == 0 && marks.len()
                    == 0,
                _ => false,
            };
            if !blank {
                assert(!is_blank_text(self@[i as int]));
                return false;
            }
            i = i + 1;
        }
        true
    }

    /// The number of segments.
    pub fn len(&self) -> (res: usize)
        ensures
            res == self@.len(),
    {
        self.segments.len()
    }

    /// The text segments' contents joined with single spaces; other segments
    /// are left out.
    pub fn as_plain_text(&self) -> (res: String)
        ensures
            res@ == plain_text(self@),
    {
        let ghost sv = self@;
        let mut result = String::new();
        let mut i: usize = 0;
        while i < self.segments.len()
            invariant
                sv == self@,
                sv.len() == self.segments@.len(),
                i <= sv.len(),
                result@ == plain_text(sv.take(i as int)),
            decreases self.segments.len() - i,
        {
            proof {
                assert(sv.take(i + 1).drop_last() =~= sv.take(i as int));
            }
            match &self.segments[i] {
                BlockSegment::Text { content, .. } => {
                    if result.unicode_len() > 0 {
                        result.append(" ");
                    }
                    result.append(content.as_str());
                },
                _ => {},
            }
            i = i + 1;
        }
        assert(sv.take(sv.len() as int) =~= sv);
        result
    }

    /// The plain text, lower-cased.
    pub fn to_lowercase(&self) -> (res: String)
        ensures
            res@ == lowercase_of(plain_text(self@)),
    {
        let p = self.as_plain_text();
        to_lowercase(p.as_str())
    }

    /// Whether the plain text contains `needle` (case-sensitive).
    pub fn contains(&self, needle: &str) -> (res: bool)
        ensures
            res == seq_contains_run(plain_text(self@), needle@),
    {
        let p = self.as_plain_text();
        str_contains(p.as_str(), needle)
    }

    /// The targets of the page references, in order.
    pub fn page_refs(&self) -> (res: Vec<String>)
        ensures
            strs_view(res@) == page_targets(self@),
    {
        let ghost sv = self@;
        let mut out: Vec<String> = Vec::new();
        let mut i: usize = 0;
        while i < self.segments.len()
            invariant
                sv == self@,
                sv.len() == self.segments@.len(),
                i <= sv.len(),
                strs_view(out@) == page_targets(sv.take(i as int)),
            decreases self.segments.len() - i,
        {
            proof {
                assert(sv.take(i + 1).drop_last() =~= sv.take(i as int));
            }
            match &self.segments[i] {
                BlockSegment::PageRef { target, .. } => {
                    let t = target.clone();
                    proof {
                        assert(strs_view(out@.push(t)) =~= strs_view(out@).push(t@));
                    }
                    out.push(t);
                },
                _ => {},
            }
            i = i + 1;
        }
        assert(sv.take(sv.len() as int) =~= sv);
        out
    }

    /// The targets of the block references, in order.
    pub fn block_refs(&self) -> (res: Vec<String>)
        ensures
            strs_view(res@) == block_targets(self@),
    {
        let ghost sv = self@;
        let mut out: Vec<String> = Vec::new();
        let mut i: usize = 0;
        while i < self.segments.len()
            invariant
                sv == self@,
                sv.len() == self.segments@.len(),
                i <= sv.len(),
                strs_view(out@) == block_targets(sv.take(i as int)),
            decreases self.segments.len() - i,
        {
            proof {
                assert(sv.take(i + 1).drop_last() =~= sv.take(i as int));
            }
            match &self.segments[i] {
                BlockSegment::BlockRef { target } => {
                    let t = target.clone();
                    proof {
                        assert(strs_view(out@.push(t)) =~= strs_view(out@).push(t@));
                    }
                    out.push(t);
                },
                _ => {},
            }
            i = i + 1;
        }
        assert(sv.take(sv.len() as int) =~= sv);
        out
    }

    /// Splits the content at plain-text character `position`: the left part
    /// holds the characters before it, the right part the rest. Position 0
    /// gives an empty left part; a position at or past the end an empty right
    /// part. Otherwise the text segment that holds the position is cut in two
    /// (dropping an empty half), the segments before it go left and those
    /// after it go right.
    pub fn split_at(&self, position: usize) -> (res: (BlockContent, BlockContent))
        ensures
            res.0@ == split_left(self@, position as int),
            res.1@ == split_right(self@, position as int),
    {
        let ghost s = self@;
        let ghost pos = position as int;
        if position == 0 {
            return (BlockContent::empty(), self.clone());
        }
        let mut left: Vec<BlockSegment> = Vec::new();
        let mut right: Vec<BlockSegment> = Vec::new();
        let mut current_pos: usize = 0;
        let mut split_done = false;
        let ghost mut k: int = 0;
        let ghost mut right_head: Seq<SegV> = Seq::empty();
        let mut i: usize = 0;
        while i < self.segments.len()
            invariant
                s == self@,
                s.len() == self.segments@.len(),
                pos == position as int,
                pos > 0,
                i <= s.len(),
                !split_done ==> {
                    &&& segs_view(left@) == s.take(i as int)
                    &&& right@.len() == 0
                    &&& current_pos == total_len(s.take(i as int))
                    &&& current_pos <= position
                    &&& split_index(s, pos, 0) == split_index(s, pos, i as int)
                },
                split_done ==> {
                    &&& 0 <= k < i
                    &&& k == split_index(s, pos, 0)
                    &&& total_len(s.take(k)) <= pos < total_len(s.take(i as int))
                    &&& pos < total_len(s.take(k)) + seg_len(s[k])
                    &&& segs_view(left@) == split_left(s, pos)
                    &&& segs_view(right@) == right_head + s.subrange(k + 1, i as int)
                    &&& s[k] matches SegV::Text(c, m) ==> right_head == (if pos - total_len(
                        s.take(k),
                    ) < c.len() {
                        seq![SegV::Text(c.skip(pos - total_len(s.take(k))), m)]
                    } else {
                        Seq::empty()
                    })
                    &&& !(s[k] is Text) ==> right_head == Seq::<SegV>::empty()
                },
            decreases self.segments.len() - i,
        {
            proof {
                lemma_total_take(s, i as int);
                assert(s.take(i + 1).drop_last() =~= s.take(i as int));
            }
            let segment = &self.segments[i];
            let seg_len_i = segment.text_len();
            if split_done {
                let c = segment.clone();
                proof {
                    lemma_segs_push(right@, c);
                    assert(s.subrange(k + 1, i + 1) =~= s.subrange(k + 1, i as int).push(s[i as int]));
                }
                right.push(c);
            } else if seg_len_i <= position - current_pos {
                let c = segment.clone();
                proof {
                    lemma_segs_push(left@, c);
                    assert(s.take(i + 1) =~= s.take(i as int).push(s[i as int]));
                }
                left.push(c);
                current_pos = current_pos + seg_len_i;
            } else {
                proof {
                    k = i as int;
                    assert(split_index(s, pos, i as int) == i as int);
                    lemma_total_mono(s, i + 1);
                }
                match segment {
                    BlockSegment::Text { content, marks } => {
                        let local_pos = position - current_pos;
                        let cs = chars_of(content.as_str());
                        if local_pos > 0 {
                            let lt = sub_string(&cs, 0, local_pos);
                            let seg = BlockSegment::Text { content: lt, marks: clone_marks(marks) };
                            proof {
                                lemma_segs_push(left@, seg);
                            }
                            left.push(seg);
                        }
                        if local_pos < cs.len() {
                            let rt = sub_string(&cs, local_pos, cs.len());
                            let seg = BlockSegment::Text { content: rt, marks: clone_marks(marks) };
                            proof {
                                lemma_segs_push(right@, seg);
                            }
                            right.push(seg);
                        }
                        proof {
                            right_head = segs_view(right@);
                            assert(cs@.subrange(0, local_pos as int) =~= content@.take(
                                local_pos as int,
                            ));
                            assert(cs@.subrange(local_pos as int, cs@.len() as int)
                                =~= content@.skip(local_pos as int));
                        }
                    },
                    _ => {
                        let c = segment.clone();
                        proof {
                            lemma_segs_push(left@, c);
                        }
                        left.push(c);
                    },
                }
                split_done = true;
                proof {
                    assert(s.subrange(k + 1, i + 1) =~= Seq::<SegV>::empty());
                    assert(segs_view(right@) =~= right_head + s.subrange(k + 1, i + 1));
                    assert(segs_view(left@) =~= split_left(s, pos));
                }
            }
            i = i + 1;
        }
        proof {
            assert(s.take(s.len() as int) =~= s);
            if split_done {
                assert(s.subrange(k + 1, s.len() as int) =~= s.skip(k + 1));
            }
        }
        (BlockContent { segments: left }, BlockContent { segments: right })
    }
}

impl Clone for BlockContent {
    /// A copy with the same segments.
    fn clone(&self) -> (res: Self)
        ensures
            res@ == self@,
    {
        let mut out: Vec<BlockSegment> = Vec::new();
        let mut i: usize = 0;
        while i < self.segments.len()
            invariant
                i <= self.segments@.len(),
                out@.len() == i,
                forall|j: int| 0 <= j < i ==> #[trigger] out@[j]@ == self.segments@[j]@,
            decreases self.segments.len() - i,
        {
            out.push(self.segments[i].clone());
            i = i + 1;
        }
        let res = BlockContent { segments: out };
        assert(res@ =~= self@);
        res
    }
}

impl Default for BlockContent {
    /// Content with no segments.
    fn default() -> (res: Self)
        ensures
            res@ == Seq::<SegV>::empty(),
    {
        BlockContent::empty()
    }
}

} // verus!
