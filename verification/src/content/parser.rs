//! Parses raw text into segments: `[[Page Name]]` becomes a page reference,
//! `((block-id))` a block reference, and everything else text. Names and ids
//! are kept as written; resolving them is the repository's business.

use crate::content::block_segment::{marks_view, sub_string, BlockSegment, SegV};
use crate::content::mark::{Mark, MarkV};
use crate::content::{segs_view, BlockContent};
use crate::text::{char_alphanumeric, chars_of, is_alphanumeric};
use vstd::prelude::*;

verus! {

/// Errors of text parsing.
#[derive(Debug, Clone, PartialEq)]
pub enum ParseError {
    /// A `[[` without its `]]`.
    UnclosedPageRef { position: usize },
    /// A `((` without its `))`.
    UnclosedBlockRef { position: usize },
    /// A block id with characters other than letters, digits, `-` and `_`.
    InvalidBlockId(String),
}

/// The message of a parse error.
pub open spec fn parse_error_message(e: ParseError) -> Seq<char> {
    match e {
        ParseError::UnclosedPageRef { position } => "Unclosed page reference at position "@
            + crate::text::decimal(position as nat),
        ParseError::UnclosedBlockRef { position } => "Unclosed block reference at position "@
            + crate::text::decimal(position as nat),
        ParseError::InvalidBlockId(s) => "Invalid block ID format: "@ + s@,
    }
}

impl ParseError {
    /// The error's message.
    pub fn to_display_string(&self) -> (res: String)
        ensures
            res@ == parse_error_message(*self),
    {
        match self {
            ParseError::UnclosedPageRef { position } => {
                let mut r = "Unclosed page reference at position ".to_owned();
                let d = crate::text::u64_to_string(*position as u64);
                r.append(d.as_str());
                r
            },
            ParseError::UnclosedBlockRef { position } => {
                let mut r = "Unclosed block reference at position ".to_owned();
                let d = crate::text::u64_to_string(*position as u64);
                r.append(d.as_str());
                r
            },
            ParseError::InvalidBlockId(s) => {
                let mut r = "Invalid block ID format: ".to_owned();
                r.append(s.as_str());
                r
            },
        }
    }
}

/// `c` twice at position `i`.
pub open spec fn doubled_at(s: Seq<char>, i: int, c: char) -> bool {
    0 <= i && i + 1 < s.len() && s[i] == c && s[i + 1] == c
}

/// The first position, from `from` on, where `c` occurs twice in a row.
pub open spec fn find_close(s: Seq<char>, from: int, c: char) -> Option<int>
    decreases s.len() - from,
{
    if from < 0 || from + 1 >= s.len() {
        None
    } else if s[from] == c && s[from + 1] == c {
        Some(from)
    } else {
        find_close(s, from + 1, c)
    }
}

/// What `find_close` finds lies at or after `from` and is a doubled `c`.
pub proof fn lemma_find_close(s: Seq<char>, from: int, c: char)
    ensures
        find_close(s, from, c) matches Some(j) ==> from <= j && doubled_at(s, j, c),
    decreases s.len() - from,
{
    if from >= 0 && from + 1 < s.len() && !(s[from] == c && s[from + 1] == c) {
        lemma_find_close(s, from + 1, c);
    }
}

/// A text segment for `s[a..b]`, if that is not empty.
pub open spec fn flush(s: Seq<char>, a: int, b: int) -> Seq<SegV> {
    if a < b {
        seq![SegV::Text(s.subrange(a, b), Seq::empty())]
    } else {
        Seq::empty()
    }
}

/// A block id: non-empty, of letters, digits, `-` and `_`.
pub open spec fn valid_block_id(id: Seq<char>) -> bool {
    &&& id.len() > 0
    &&& forall|k: int|
        0 <= k < id.len() ==> char_alphanumeric(#[trigger] id[k]) || id[k] == '-' || id[k]
            == '_'
}

/// The segments of `s` from position `i` on, where the pending text starts
/// at `ts`.
///
/// At a `[[` followed by a `]]`, the pending text is emitted, the name
/// between them becomes a page reference (none if it is empty) and scanning
/// resumes after the `]]`; without a `]]`, the text from `ts` to the end,
/// the unclosed `[[` included, is emitted as one text segment and scanning
/// stops. `((`…`))` is handled alike, an id that is not a valid
/// block id giving no segment. Any other character joins the pending text.
pub open spec fn parse_from(s: Seq<char>, i: int, ts: int) -> Seq<SegV>
    decreases s.len() - i,
{
    if i >= s.len() {
        flush(s, ts, s.len() as int)
    } else if doubled_at(s, i, '[') {
        match find_close(s, i + 2, ']') {
            Some(j) => {
                proof {
                    lemma_find_close(s, i + 2, ']');
                }
                flush(s, ts, i) + (if j > i + 2 {
                    seq![SegV::PageRef(s.subrange(i + 2, j), None)]
                } else {
                    Seq::empty()
                }) + parse_from(s, j + 2, j + 2)
            },
            None => flush(s, ts, s.len() as int),
        }
    } else if doubled_at(s, i, '(') {
        match find_close(s, i + 2, ')') {
            Some(j) => {
                proof {
                    lemma_find_close(s, i + 2, ')');
                }
                flush(s, ts, i) + (if valid_block_id(s.subrange(i + 2, j)) {
                    seq![SegV::BlockRef(s.subrange(i + 2, j))]
                } else {
                    Seq::empty()
                }) + parse_from(s, j + 2, j + 2)
            },
            None => flush(s, ts, s.len() as int),
        }
    } else {
        parse_from(s, i + 1, ts)
    }
}

/// The first doubled `c` at or after `from`.
fn find_close_exec(cs: &Vec<char>, from: usize, c: char) -> (res: Option<usize>)
    requires
        from <= cs@.len(),
    ensures
        match find_close(cs@, from as int, c) {
            Some(j) => res == Some(j as usize),
            None => res is None,
        },
{
    let mut k = from;
    while k < cs.len() && cs.len() - k >= 2
        invariant
            from <= k <= cs@.len(),
            find_close(cs@, from as int, c) == find_close(cs@, k as int, c),
        decreases cs.len() - k,
    {
        if cs[k] == c && cs[k + 1] == c {
            return Some(k);
        }
        k = k + 1;
    }
    None
}

/// Whether `cs[a..b]` is a valid block id.
fn is_valid_block_id(cs: &Vec<char>, a: usize, b: usize) -> (res: bool)
    requires
        a <= b <= cs@.len(),
    ensures
        res == valid_block_id(cs@.subrange(a as int, b as int)),
{
    if a == b {
        return false;
    }
    let ghost id = cs@.subrange(a as int, b as int);
    let mut k = a;
    while k < b
        invariant
            a <= k <= b <= cs@.len(),
            id == cs@.subrange(a as int, b as int),
            forall|m: int|
                0 <= m < k - a ==> char_alphanumeric(#[trigger] id[m]) || id[m] == '-' || id[m]
                    == '_',
        decreases b - k,
    {
        let ch = cs[k];
        if !(is_alphanumeric(ch) || ch == '-' || ch == '_') {
            assert(id[k - a] == ch);
            return false;
        }
        k = k + 1;
    }
    true
}

/// A text segment for `cs[a..b]`, pushed if that is not empty.
fn push_text(segments: &mut Vec<BlockSegment>, cs: &Vec<char>, a: usize, b: usize)
    requires
        b <= cs@.len(),
    ensures
        segs_view(final(segments)@) == segs_view(old(segments)@) + flush(cs@, a as int, b as int),
{
    if a < b {
        let text = sub_string(cs, a, b);
        let marks: Vec<Mark> = Vec::new();
        assert(marks_view(marks@) =~= Seq::<MarkV>::empty());
        let seg = BlockSegment::Text { content: text, marks };
        proof {
            assert(seg@ == SegV::Text(cs@.subrange(a as int, b as int), Seq::empty()));
            assert(segs_view(old(segments)@.push(seg)) =~= segs_view(old(segments)@) + flush(
                cs@,
                a as int,
                b as int,
            ));
        }
        segments.push(seg);
    } else {
        assert(segs_view(old(segments)@) =~= segs_view(old(segments)@) + flush(
            cs@,
            a as int,
            b as int,
        ));
    }
}

/// The segments of a text: page references `[[name]]`, block references
/// `((id))` and the text around them (see `parse_from`).
pub open spec fn parse_spec(s: Seq<char>) -> Seq<SegV> {
    parse_from(s, 0, 0)
}

/// Parses raw text into content: `[[Name]]` becomes a page reference with
/// target `Name`, `((id))` a block reference with target `id`, and the text
/// between them text segments. Empty names and invalid block ids give no
/// segment.
pub fn parse_text(input: &str) -> (res: BlockContent)
    ensures
        res@ == parse_spec(input@),
{
    let cs = chars_of(input);
    let ghost s = cs@;
    let len = cs.len();
    let mut segments: Vec<BlockSegment> = Vec::new();
    let mut i: usize = 0;
    let mut text_start: usize = 0;
    while i < len
        invariant
            s == cs@,
            s == input@,
            len == s.len(),
            text_start <= i <= len,
            segs_view(segments@) + parse_from(s, i as int, text_start as int) == parse_spec(s),
        decreases len - i,
    {
        let ghost before = segs_view(segments@);
        if i + 1 < len && cs[i] == '[' && cs[i + 1] == '[' {
            let close = find_close_exec(&cs, i + 2, ']');
            match close {
                Some(j) => {
                    proof {
                        lemma_find_close(s, i + 2, ']');
                    }
                    push_text(&mut segments, &cs, text_start, i);
                    let ghost mid = segs_view(segments@);
                    if j > i + 2 {
                        let name = sub_string(&cs, i + 2, j);
                        let seg = BlockSegment::PageRef { target: name, label: None };
                        proof {
                            assert(segs_view(segments@.push(seg)) =~= mid.push(seg@));
                        }
                        segments.push(seg);
                    }
                    proof {
                        let tail = parse_from(s, j + 2, j + 2);
                        let added = if j > i + 2 {
                            seq![SegV::PageRef(s.subrange(i + 2, j as int), None)]
                        } else {
                            Seq::empty()
                        };
                        assert(segs_view(segments@) =~= mid + added);
                        assert(mid == before + flush(s, text_start as int, i as int));
                        assert(parse_from(s, i as int, text_start as int) == flush(
                            s,
                            text_start as int,
                            i as int,
                        ) + (added + tail));
                        assert(segs_view(segments@) + tail =~= before + (flush(
                            s,
                            text_start as int,
                            i as int,
                        ) + (added + tail)));
                    }
                    i = j + 2;
                    text_start = i;
                },
                None => {
                    proof {
                        assert(parse_from(s, i as int, text_start as int) == flush(
                            s,
                            text_start as int,
                            len as int,
                        ));
                        assert(parse_from(s, len as int, text_start as int) == flush(
                            s,
                            text_start as int,
                            len as int,
                        ));
                    }
                    i = len;
                },
            }
        } else if i + 1 < len && cs[i] == '(' && cs[i + 1] == '(' {
            let close = find_close_exec(&cs, i + 2, ')');
            match close {
                Some(j) => {
                    proof {
                        lemma_find_close(s, i + 2, ')');
                    }
                    push_text(&mut segments, &cs, text_start, i);
                    let ghost mid = segs_view(segments@);
                    let valid = is_valid_block_id(&cs, i + 2, j);
                    if valid {
                        let id = sub_string(&cs, i + 2, j);
                        let seg = BlockSegment::BlockRef { target: id };
                        proof {
                            assert(segs_view(segments@.push(seg)) =~= mid.push(seg@));
                        }
                        segments.push(seg);
                    }
                    proof {
                        let tail = parse_from(s, j + 2, j + 2);
                        let added = if valid_block_id(s.subrange(i + 2, j as int)) {
                            seq![SegV::BlockRef(s.subrange(i + 2, j as int))]
                        } else {
                            Seq::empty()
                        };
                        assert(segs_view(segments@) =~= mid + added);
                        assert(parse_from(s, i as int, text_start as int) == flush(
                            s,
                            text_start as int,
                            i as int,
                        ) + (added + tail));
                        assert(segs_view(segments@) + tail =~= before + (flush(
                            s,
                            text_start as int,
                            i as int,
                        ) + (added + tail)));
                    }
                    i = j + 2;
                    text_start = i;
                },
                None => {
                    proof {
                        assert(parse_from(s, i as int, text_start as int) == flush(
                            s,
                            text_start as int,
                            len as int,
                        ));
                        assert(parse_from(s, len as int, text_start as int) == flush(
                            s,
                            text_start as int,
                            len as int,
                        ));
                    }
                    i = len;
                },
            }
        } else {
            i = i + 1;
        }
    }
    push_text(&mut segments, &cs, text_start, len);
    proof {
        assert(segs_view(segments@) =~= parse_spec(s));
    }
    BlockContent { segments }
}

/// Parses text with formatting marks; marks are not extracted yet, so this
/// is `parse_text`.
pub fn parse_text_with_marks(input: &str) -> (res: BlockContent)
    ensures
        res@ == parse_spec(input@),
{
    parse_text(input)
}

} // verus!
