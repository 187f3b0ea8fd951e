//! `Mark`: inline formatting applied to a text segment.

use vstd::prelude::*;

verus! {

/// Inline formatting applied to a portion of text.
#[derive(Debug, PartialEq)]
pub enum Mark {
    /// Bold text (`**bold**`).
    Bold,
    /// Italic text (`*italic*`).
    Italic,
    /// Strikethrough text (`~~strikethrough~~`).
    Strikethrough,
    /// Inline code (`` `code` ``).
    Code,
    /// Highlighted text with a color such as `#ffff00`.
    Highlight { color: String },
    /// A hyperlink, with an optional display label.
    Link { url: String, label: Option<String> },
}

/// The content of a [`Mark`], its strings taken as character sequences.
pub enum MarkV {
    Bold,
    Italic,
    Strikethrough,
    Code,
    Highlight(Seq<char>),
    Link(Seq<char>, Option<Seq<char>>),
}

/// The character sequence of an optional string.
pub open spec fn opt_view(o: Option<String>) -> Option<Seq<char>> {
    match o {
        Some(s) => Some(s@),
        None => None,
    }
}

/// A copy of an optional string.
pub fn clone_opt(o: &Option<String>) -> (res: Option<String>)
    ensures
        opt_view(res) == opt_view(*o),
{
    match o {
        Some(s) => Some(s.clone()),
        None => None,
    }
}

impl Mark {
    /// The content of this mark.
    pub open spec fn view(&self) -> MarkV {
        match self {
            Mark::Bold => MarkV::Bold,
            Mark::Italic => MarkV::Italic,
            Mark::Strikethrough => MarkV::Strikethrough,
            Mark::Code => MarkV::Code,
            Mark::Highlight { color } => MarkV::Highlight(color@),
            Mark::Link { url, label } => MarkV::Link(url@, opt_view(*label)),
        }
    }

    /// Whether this mark is pure formatting, carrying no data: bold, italic,
    /// strikethrough and code are; highlights and links are not.
    pub fn is_formatting_only(&self) -> (res: bool)
        ensures
            res == (self@ is Bold || self@ is Italic || self@ is Strikethrough || self@ is Code),
    {
        match self {
            Mark::Bold | Mark::Italic | Mark::Strikethrough | Mark::Code => true,
            Mark::Highlight { .. } | Mark::Link { .. } => false,
        }
    }
}

impl Clone for Mark {
    /// A copy with the same content.
    fn clone(&self) -> (res: Self)
        ensures
            res@ == self@,
    {
        match self {
            Mark::Bold => Mark::Bold,
            Mark::Italic => Mark::Italic,
            Mark::Strikethrough => Mark::Strikethrough,
            Mark::Code => Mark::Code,
            Mark::Highlight { color } => Mark::Highlight { color: color.clone() },
            Mark::Link { url, label } => Mark::Link { url: url.clone(), label: clone_opt(label) },
        }
    }
}

} // verus!
