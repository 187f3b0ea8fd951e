//! `BlockSegment`: one typed unit of a block's content (text, a page or block
//! reference, an image, code, a table, a date or a tag), and its Markdown
//! rendering.
//!
//! References carry their target as a string identifier (a page name, a
//! block id, or the text form of a UUID); resolving it is the repository's
//! business.

use crate::content::mark::{clone_opt, opt_view, Mark, MarkV};
use crate::text::{decimal_signed, i64_to_string, string_from_chars, chars_of};
use vstd::prelude::*;

verus! {

/// One typed unit of a block's content.
#[derive(Debug, PartialEq)]
pub enum BlockSegment {
    /// Plain text with inline formatting marks.
    Text { content: String, marks: Vec<Mark> },
    /// A reference to a page: `[[Page Name]]`.
    PageRef { target: String, label: Option<String> },
    /// A reference to a block: `((block-id))`.
    BlockRef { target: String },
    /// An embedded image.
    Image { url: String, alt: Option<String> },
    /// A code block.
    Code { language: String, source: String },
    /// A table; each row has as many cells as there are headers.
    Table { headers: Vec<String>, rows: Vec<Vec<String>> },
    /// A date, as the integer `YYYYMMDD`.
    Date { value: i32 },
    /// A tag, without its `#`.
    Tag { value: String },
}

/// The content of a [`BlockSegment`], its strings taken as character
/// sequences.
pub enum SegV {
    Text(Seq<char>, Seq<MarkV>),
    PageRef(Seq<char>, Option<Seq<char>>),
    BlockRef(Seq<char>),
    Image(Seq<char>, Option<Seq<char>>),
    Code(Seq<char>, Seq<char>),
    Table(Seq<Seq<char>>, Seq<Seq<Seq<char>>>),
    Date(int),
    Tag(Seq<char>),
}

/// The contents of a sequence of marks.
pub open spec fn marks_view(m: Seq<Mark>) -> Seq<MarkV> {
    m.map_values(|x: Mark| x@)
}

/// The character sequences of a sequence of strings.
pub open spec fn strs_view(v: Seq<String>) -> Seq<Seq<char>> {
    v.map_values(|x: String| x@)
}

/// The cells of a sequence of table rows.
pub open spec fn rows_view(v: Seq<Vec<String>>) -> Seq<Seq<Seq<char>>> {
    v.map_values(|r: Vec<String>| strs_view(r@))
}

// ── Markdown rendering, as a specification ──────────────────────────────────

/// One mark applied around already-rendered text `r`.
pub open spec fn mark_md(r: Seq<char>, m: MarkV) -> Seq<char> {
    match m {
        MarkV::Bold => "**"@ + r + "**"@,
        MarkV::Italic => "*"@ + r + "*"@,
        MarkV::Strikethrough => "~~"@ + r + "~~"@,
        MarkV::Code => "`"@ + r + "`"@,
        MarkV::Highlight(_) => r,
        MarkV::Link(url, Some(l)) => "["@ + l + "]("@ + url + ")"@,
        MarkV::Link(url, None) => "["@ + r + "]("@ + url + ")"@,
    }
}

/// Text with its marks applied in order, the first mark innermost.
pub open spec fn marks_md(c: Seq<char>, marks: Seq<MarkV>) -> Seq<char>
    decreases marks.len(),
{
    if marks.len() == 0 {
        c
    } else {
        mark_md(marks_md(c, marks.drop_last()), marks.last())
    }
}

/// The parts separated by `sep`.
pub open spec fn join(parts: Seq<Seq<char>>, sep: Seq<char>) -> Seq<char>
    decreases parts.len(),
{
    if parts.len() == 0 {
        Seq::empty()
    } else if parts.len() == 1 {
        parts[0]
    } else {
        join(parts.drop_last(), sep) + sep + parts.last()
    }
}

/// One Markdown table line.
pub open spec fn table_line(cells: Seq<Seq<char>>) -> Seq<char> {
    "| "@ + join(cells, " | "@) + " |\n"@
}

/// The Markdown lines of the data rows, in order.
pub open spec fn table_lines(rows: Seq<Seq<Seq<char>>>) -> Seq<char>
    decreases rows.len(),
{
    if rows.len() == 0 {
        Seq::empty()
    } else {
        table_lines(rows.drop_last()) + table_line(rows.last())
    }
}

/// `n` separator cells `---`.
pub open spec fn dashes(n: nat) -> Seq<Seq<char>> {
    Seq::new(n, |i: int| "---"@)
}

/// A `YYYYMMDD` date rendered `YYYY-MM-DD` when its decimal form has eight
/// characters, and as that decimal form otherwise.
pub open spec fn date_md(v: int) -> Seq<char> {
    let d = decimal_signed(v);
    if d.len() == 8 {
        d.subrange(0, 4) + "-"@ + d.subrange(4, 6) + "-"@ + d.subrange(6, 8)
    } else {
        d
    }
}

/// The Markdown rendering of a segment.
pub open spec fn segment_md(s: SegV) -> Seq<char> {
    match s {
        SegV::Text(c, m) => marks_md(c, m),
        SegV::PageRef(_, Some(l)) => "[["@ + l + "]]"@,
        SegV::PageRef(_, None) => Seq::empty(),
        SegV::BlockRef(t) => "(("@ + t + "))"@,
        SegV::Image(url, Some(alt)) => "!["@ + alt + "]("@ + url + ")"@,
        SegV::Image(url, None) => "![]("@ + url + ")"@,
        SegV::Code(lang, src) => "```"@ + lang + "\n"@ + src + "\n```"@,
        SegV::Table(h, rows) => table_line(h) + table_line(dashes(h.len())) + table_lines(rows),
        SegV::Date(v) => date_md(v),
        SegV::Tag(v) => "#"@ + v,
    }
}

/// The number of characters a segment contributes to the plain text.
pub open spec fn seg_len(s: SegV) -> nat {
    match s {
        SegV::Text(c, _) => c.len(),
        _ => 0,
    }
}

// ── Copies ──────────────────────────────────────────────────────────────────

/// A copy of a sequence of marks.
pub fn clone_marks(v: &Vec<Mark>) -> (res: Vec<Mark>)
    ensures
        marks_view(res@) == marks_view(v@),
{
    let mut out: Vec<Mark> = Vec::new();
    let mut i: usize = 0;
    while i < v.len()
        invariant
            i <= v@.len(),
            out@.len() == i,
            forall|j: int| 0 <= j < i ==> #[trigger] out@[j]@ == v@[j]@,
        decreases v.len() - i,
    {
        out.push(v[i].clone());
        i = i + 1;
    }
    assert(marks_view(out@) =~= marks_view(v@));
    out
}

/// A copy of a sequence of strings.
pub fn clone_strs(v: &Vec<String>) -> (res: Vec<String>)
    ensures
        strs_view(res@) == strs_view(v@),
{
    let mut out: Vec<String> = Vec::new();
    let mut i: usize = 0;
    while i < v.len()
        invariant
            i <= v@.len(),
            out@.len() == i,
            forall|j: int| 0 <= j < i ==> #[trigger] out@[j]@ == v@[j]@,
        decreases v.len() - i,
    {
        out.push(v[i].clone());
        i = i + 1;
    }
    assert(strs_view(out@) =~= strs_view(v@));
    out
}

/// A copy of a sequence of table rows.
fn clone_rows(v: &Vec<Vec<String>>) -> (res: Vec<Vec<String>>)
    ensures
        rows_view(res@) == rows_view(v@),
{
    let mut out: Vec<Vec<String>> = Vec::new();
    let mut i: usize = 0;
    while i < v.len()
        invariant
            i <= v@.len(),
            out@.len() == i,
            forall|j: int| 0 <= j < i ==> strs_view(#[trigger] out@[j]@) == strs_view(v@[j]@),
        decreases v.len() - i,
    {
        out.push(clone_strs(&v[i]));
        i = i + 1;
    }
    assert(rows_view(out@) =~= rows_view(v@));
    out
}

// ── Rendering helpers ───────────────────────────────────────────────────────

/// `join` of one more part.
proof fn lemma_join_take(parts: Seq<Seq<char>>, sep: Seq<char>, i: int)
    requires
        1 <= i < parts.len(),
    ensures
        join(parts.take(i + 1), sep) == join(parts.take(i), sep) + sep + parts[i],
{
    assert(parts.take(i + 1).drop_last() =~= parts.take(i));
}

/// The strings joined with `sep` (`[String]::join`).
pub fn join_strs(parts: &Vec<String>, sep: &str) -> (res: String)
    ensures
        res@ == join(strs_view(parts@), sep@),
{
    let ghost ps = strs_view(parts@);
    let mut r = String::new();
    if parts.len() == 0 {
        assert(ps =~= Seq::<Seq<char>>::empty());
        return r;
    }
    r.append(parts[0].as_str());
    assert(ps.take(1) =~= seq![ps[0]]);
    let mut i: usize = 1;
    while i < parts.len()
        invariant
            ps == strs_view(parts@),
            1 <= i <= parts@.len(),
            r@ == join(ps.take(i as int), sep@),
        decreases parts.len() - i,
    {
        proof {
            lemma_join_take(ps, sep@, i as int);
        }
        r.append(sep);
        r.append(parts[i].as_str());
        i = i + 1;
    }
    assert(ps.take(parts@.len() as int) =~= ps);
    r
}

/// One Markdown table line.
fn table_line_of(cells: &Vec<String>) -> (res: String)
    ensures
        res@ == table_line(strs_view(cells@)),
{
    let mut r = "| ".to_owned();
    let j = join_strs(cells, " | ");
    r.append(j.as_str());
    r.append(" |\n");
    r
}

/// Wraps `r` between `open` and `close`.
fn wrap(open: &str, r: &str, close: &str) -> (res: String)
    ensures
        res@ == open@ + r@ + close@,
{
    let mut t = open.to_owned();
    t.append(r);
    t.append(close);
    t
}

/// `[text](url)`.
fn link_md(text: &str, url: &str) -> (res: String)
    ensures
        res@ == "["@ + text@ + "]("@ + url@ + ")"@,
{
    let mut t = "[".to_owned();
    t.append(text);
    t.append("](");
    t.append(url);
    t.append(")");
    t
}

/// One mark applied around `r`.
fn apply_mark(r: String, m: &Mark) -> (res: String)
    ensures
        res@ == mark_md(r@, m@),
{
    match m {
        Mark::Bold => wrap("**", r.as_str(), "**"),
        Mark::Italic => wrap("*", r.as_str(), "*"),
        Mark::Strikethrough => wrap("~~", r.as_str(), "~~"),
        Mark::Code => wrap("`", r.as_str(), "`"),
        Mark::Highlight { .. } => r,
        Mark::Link { url, label } => match label {
            Some(l) => link_md(l.as_str(), url.as_str()),
            None => link_md(r.as_str(), url.as_str()),
        },
    }
}

/// The characters `v[a..b]` as a string.
pub fn sub_string(v: &Vec<char>, a: usize, b: usize) -> (res: String)
    requires
        a <= b <= v@.len(),
    ensures
        res@ == v@.subrange(a as int, b as int),
{
    let mut part: Vec<char> = Vec::new();
    let mut i: usize = a;
    while i < b
        invariant
            a <= i <= b <= v@.len(),
            part@ == v@.subrange(a as int, i as int),
        decreases b - i,
    {
        part.push(v[i]);
        i = i + 1;
    }
    string_from_chars(&part)
}

/// A `YYYYMMDD` date in Markdown.
fn date_markdown(value: i32) -> (res: String)
    ensures
        res@ == date_md(value as int),
{
    let d = i64_to_string(value as i64);
    let cs = chars_of(d.as_str());
    if cs.len() == 8 {
        let mut r = sub_string(&cs, 0, 4);
        r.append("-");
        let m = sub_string(&cs, 4, 6);
        r.append(m.as_str());
        r.append("-");
        let dd = sub_string(&cs, 6, 8);
        r.append(dd.as_str());
        r
    } else {
        d
    }
}

impl BlockSegment {
    /// The content of this segment.
    pub open spec fn view(&self) -> SegV {
        match self {
            BlockSegment::Text { content, marks } => SegV::Text(content@, marks_view(marks@)),
            BlockSegment::PageRef { target, label } => SegV::PageRef(target@, opt_view(*label)),
            BlockSegment::BlockRef { target } => SegV::BlockRef(target@),
            BlockSegment::Image { url, alt } => SegV::Image(url@, opt_view(*alt)),
            BlockSegment::Code { language, source } => SegV::Code(language@, source@),
            BlockSegment::Table { headers, rows } => SegV::Table(
                strs_view(headers@),
                rows_view(rows@),
            ),
            BlockSegment::Date { value } => SegV::Date(*value as int),
            BlockSegment::Tag { value } => SegV::Tag(value@),
        }
    }

    /// Whether this is a text segment.
    pub fn is_text(&self) -> (res: bool)
        ensures
            res == self@ is Text,
    {
        matches!(self, BlockSegment::Text { .. })
    }

    /// Whether this is a page or block reference.
    pub fn is_ref(&self) -> (res: bool)
        ensures
            res == (self@ is PageRef || self@ is BlockRef),
    {
        matches!(self, BlockSegment::PageRef { .. } | BlockSegment::BlockRef { .. })
    }

    /// Whether this is an embed: an image, code or a table.
    pub fn is_embed(&self) -> (res: bool)
        ensures
            res == (self@ is Image || self@ is Code || self@ is Table),
    {
        matches!(
            self,
            BlockSegment::Image { .. } | BlockSegment::Code { .. } | BlockSegment::Table { .. }
        )
    }

    /// The text of a text segment; `None` for any other segment.
    pub fn as_text(&self) -> (res: Option<&str>)
        ensures
            match self@ {
                SegV::Text(c, _) => res matches Some(t) && t@ == c,
                _ => res is None,
            },
    {
        match self {
            BlockSegment::Text { content, .. } => Some(content.as_str()),
            _ => None,
        }
    }

    /// The target of a page or block reference; `None` for any other segment.
    pub fn as_ref_target(&self) -> (res: Option<&str>)
        ensures
            match self@ {
                SegV::PageRef(t, _) => res matches Some(r) && r@ == t,
                SegV::BlockRef(t) => res matches Some(r) && r@ == t,
                _ => res is None,
            },
    {
        match self {
            BlockSegment::PageRef { target, .. } => Some(target.as_str()),
            BlockSegment::BlockRef { target } => Some(target.as_str()),
            _ => None,
        }
    }

    /// The number of characters of a text segment; 0 for any other segment.
    pub fn text_len(&self) -> (res: usize)
        ensures
            res == seg_len(self@),
    {
        match self {
            BlockSegment::Text { content, .. } => content.unicode_len(),
            _ => 0,
        }
    }

    /// The segment in Markdown. Marks are applied in order, the first one
    /// innermost; a highlight renders as its bare text, and a link with a
    /// label replaces the text by the label. A page reference without a
    /// label renders as nothing.
    pub fn to_markdown(&self) -> (res: String)
        ensures
            res@ == segment_md(self@),
    {
        match self {
            BlockSegment::Text { content, marks } => {
                let ghost ms = marks_view(marks@);
                let mut result = content.clone();
                let mut i: usize = 0;
                while i < marks.len()
                    invariant
                        ms == marks_view(marks@),
                        i <= marks@.len(),
                        result@ == marks_md(content@, ms.take(i as int)),
                    decreases marks.len() - i,
                {
                    proof {
                        assert(ms.take(i + 1).drop_last() =~= ms.take(i as int));
                    }
                    result = apply_mark(result, &marks[i]);
                    i = i + 1;
                }
                assert(ms.take(marks@.len() as int) =~= ms);
                result
            },
            BlockSegment::PageRef { label, .. } => match label {
                Some(l) => wrap("[[", l.as_str(), "]]"),
                None => String::new(),
            },
            BlockSegment::BlockRef { target } => wrap("((", target.as_str(), "))"),
            BlockSegment::Image { url, alt } => match alt {
                Some(a) => {
                    let mut t = "![".to_owned();
                    t.append(a.as_str());
                    t.append("](");
                    t.append(url.as_str());
                    t.append(")");
                    t
                },
                None => wrap("![](", url.as_str(), ")"),
            },
            BlockSegment::Code { language, source } => {
                let mut t = "```".to_owned();
                t.append(language.as_str());
                t.append("\n");
                t.append(source.as_str());
                t.append("\n```");
                t
            },
            BlockSegment::Table { headers, rows } => {
                let mut result = table_line_of(headers);
                let mut seps: Vec<String> = Vec::new();
                let mut k: usize = 0;
                while k < headers.len()
                    invariant
                        k <= headers@.len(),
                        seps@.len() == k,
                        forall|j: int| 0 <= j < k ==> (#[trigger] seps@[j])@ == "---"@,
                    decreases headers.len() - k,
                {
                    seps.push("---".to_owned());
                    k = k + 1;
                }
                assert(strs_view(seps@) =~= dashes(headers@.len()));
                let sep_line = table_line_of(&seps);
                result.append(sep_line.as_str());
                let ghost rv = rows_view(rows@);
                let mut i: usize = 0;
                while i < rows.len()
                    invariant
                        rv == rows_view(rows@),
                        i <= rows@.len(),
                        result@ == table_line(strs_view(headers@)) + table_line(
                            dashes(headers@.len()),
                        ) + table_lines(rv.take(i as int)),
                    decreases rows.len() - i,
                {
                    proof {
                        assert(rv.take(i + 1).drop_last() =~= rv.take(i as int));
                    }
                    let line = table_line_of(&rows[i]);
                    result.append(line.as_str());
                    i = i + 1;
                }
                assert(rv.take(rows@.len() as int) =~= rv);
                result
            },
            BlockSegment::Date { value } => date_markdown(*value),
            BlockSegment::Tag { value } => {
                let mut t = "#".to_owned();
                t.append(value.as_str());
                t
            },
        }
    }
}

impl Clone for BlockSegment {
    /// A copy with the same content.
    fn clone(&self) -> (res: Self)
        ensures
            res@ == self@,
    {
        match self {
            BlockSegment::Text { content, marks } => BlockSegment::Text {
                content: content.clone(),
                marks: clone_marks(marks),
            },
            BlockSegment::PageRef { target, label } => BlockSegment::PageRef {
                target: target.clone(),
                label: clone_opt(label),
            },
            BlockSegment::BlockRef { target } => BlockSegment::BlockRef { target: target.clone() },
            BlockSegment::Image { url, alt } => BlockSegment::Image {
                url: url.clone(),
                alt: clone_opt(alt),
            },
            BlockSegment::Code { language, source } => BlockSegment::Code {
                language: language.clone(),
                source: source.clone(),
            },
            BlockSegment::Table { headers, rows } => BlockSegment::Table {
                headers: clone_strs(headers),
                rows: clone_rows(rows),
            },
            BlockSegment::Date { value } => BlockSegment::Date { value: *value },
            BlockSegment::Tag { value } => BlockSegment::Tag { value: value.clone() },
        }
    }
}

} // verus!
