//! Property presets: named bundles of property patches invoked by slash
//! commands such as `/TODO`, `/Scheduled` or `/Video`. Presets never touch a
//! block's `content`, `text` or `children`.

use crate::calendar::{date_exists, valid_ymd};
use crate::canonicalization::value_objects::PropertyPatch;
use chrono::Datelike;
use crate::content::mark::opt_view;
use crate::errors::domain_error::DomainError;
use crate::text::{
    chars_of, concat2, decimal, decimal_chars, is_whitespace, is_ws, str_eq, string_from_chars,
};
use vstd::prelude::*;

verus! {

broadcast use vstd::seq_lib::lemma_seq_contains_after_push;

// ── PresetId ────────────────────────────────────────────────────────────────

/// A text is a valid preset command: a `/`, then at least one character, none
/// of them white-space or a second `/`.
pub open spec fn valid_preset_text(s: Seq<char>) -> bool {
    &&& s.len() >= 2
    &&& s[0] == '/'
    &&& forall|i: int| 1 <= i < s.len() ==> !is_ws(#[trigger] s[i]) && s[i] != '/'
}

/// A preset identifier, stored without its leading `/`. Case-sensitive:
/// `/TODO` and `/todo` are distinct.
#[derive(Debug, Clone, PartialEq, Eq, Hash, PartialOrd, Ord)]
pub struct PresetId(String);

impl PresetId {
    /// The name, without the leading `/`.
    pub closed spec fn view(&self) -> Seq<char> {
        self.0@
    }

    /// Parses a slash command; fails with `InvalidPresetId(s)` unless `s` is
    /// a `/` followed by a non-empty name without white-space or `/`.
    pub fn new(s: &str) -> (res: Result<PresetId, DomainError>)
        ensures
            valid_preset_text(s@) ==> (res matches Ok(id) && id@ == s@.drop_first()),
            !valid_preset_text(s@) ==> (res matches Err(DomainError::InvalidPresetId(t)) && t@
                == s@),
    {
        let cs = chars_of(s);
        if cs.len() < 2 || cs[0] != '/' {
            return Err(DomainError::InvalidPresetId(s.to_owned()));
        }
        let mut rest: Vec<char> = Vec::new();
        let mut i: usize = 1;
        while i < cs.len()
            invariant
                cs@ == s@,
                2 <= cs@.len(),
                cs@[0] == '/',
                1 <= i <= cs@.len(),
                rest@ == cs@.subrange(1, i as int),
                forall|j: int| 1 <= j < i ==> !is_ws(#[trigger] cs@[j]) && cs@[j] != '/',
            decreases cs.len() - i,
        {
            let c = cs[i];
            if is_whitespace(c) || c == '/' {
                assert(!valid_preset_text(s@)) by {
                    assert(!(!is_ws(cs@[i as int]) && cs@[i as int] != '/'));
                }
                return Err(DomainError::InvalidPresetId(s.to_owned()));
            }
            rest.push(c);
            i = i + 1;
        }
        assert(rest@ =~= s@.drop_first());
        Ok(PresetId(string_from_chars(&rest)))
    }

    /// The name, without the leading `/`.
    pub fn as_str(&self) -> (res: &str)
        ensures
            res@ == self@,
    {
        self.0.as_str()
    }

    /// The command as typed: `/` followed by the name.
    pub fn to_display_string(&self) -> (res: String)
        ensures
            res@ == seq!['/'] + self@,
    {
        let r = concat2("/", self.0.as_str());
        proof {
            reveal_strlit("/");
        }
        r
    }

    /// A copy of this id.
    pub fn duplicate(&self) -> (res: PresetId)
        ensures
            res@ == self@,
    {
        PresetId(self.0.clone())
    }
}

impl AsRef<str> for PresetId {
    /// The name, without the leading `/`.
    fn as_ref(&self) -> (res: &str)
        ensures
            res@ == self@,
    {
        self.0.as_str()
    }
}

// ── PresetArgKind ───────────────────────────────────────────────────────────

/// The kind of value a preset argument carries.
#[derive(Debug, Clone, Copy, PartialEq, Eq, Hash, Structural)]
pub enum PresetArgKind {
    /// A calendar date.
    Date,
    /// A URL (for media presets).
    Url,
    /// Free-form text.
    Text,
}

impl PresetArgKind {
    /// The kind's name as shown in error messages.
    pub open spec fn label(self) -> Seq<char> {
        match self {
            PresetArgKind::Date => "Date"@,
            PresetArgKind::Url => "Url"@,
            PresetArgKind::Text => "Text"@,
        }
    }

    /// The kind's name as shown in error messages.
    pub fn label_str(&self) -> (res: &'static str)
        ensures
            res@ == self.label(),
    {
        match self {
            PresetArgKind::Date => "Date",
            PresetArgKind::Url => "Url",
            PresetArgKind::Text => "Text",
        }
    }
}


// ── Calendar dates ──────────────────────────────────────────────────────────

/// What `chrono::NaiveDate::parse_from_str(s, "%Y-%m-%d")` gives for `s`,
/// as year, month and day.
pub uninterp spec fn iso_date_parse(s: Seq<char>) -> Option<(int, int, int)>;

/// Calls `chrono::NaiveDate::parse_from_str(s, "%Y-%m-%d")` and gives the
/// parsed date's year, month and day. The result is named by
/// `iso_date_parse`; a parsed date is a valid calendar date. A valid date
/// written as `date_text` writes it parses back to itself: chrono reads a
/// year without sign as up to four digits, a signed year as any number of
/// digits, then two-digit month and day.
#[verifier::external_body]
fn parse_iso_date(s: &str) -> (res: Option<(i32, u32, u32)>)
    ensures
        forall|y: i32, m: u32, d: u32|
            valid_ymd(y as int, m as int, d as int) && s@ == #[trigger] date_text(
                y as int,
                m as int,
                d as int,
            ) ==> res == Some((y, m, d)),
        match res {
            Some(t) => iso_date_parse(s@) == Some((t.0 as int, t.1 as int, t.2 as int)) && valid_ymd(
                t.0 as int,
                t.1 as int,
                t.2 as int,
            ),
            None => iso_date_parse(s@) is None,
        },
{
    chrono::NaiveDate::parse_from_str(s, "%Y-%m-%d").ok().map(|d| (d.year(), d.month(), d.day()))
}

/// `d` left-padded with `0` to at least `w` characters.
pub open spec fn pad_zero(d: Seq<char>, w: nat) -> Seq<char> {
    if d.len() >= w {
        d
    } else {
        Seq::new((w - d.len()) as nat, |i: int| '0') + d
    }
}

/// A date as `YYYY-MM-DD`: a year from 0 to 9999 in four digits, any other
/// year with its sign and at least four digits.
pub open spec fn date_text(y: int, m: int, d: int) -> Seq<char> {
    let year = if 0 <= y <= 9999 {
        pad_zero(decimal(y as nat), 4)
    } else if y >= 0 {
        "+"@ + pad_zero(decimal(y as nat), 4)
    } else {
        "-"@ + pad_zero(decimal((-y) as nat), 4)
    };
    year + "-"@ + pad_zero(decimal(m as nat), 2) + "-"@ + pad_zero(decimal(d as nat), 2)
}

/// The decimal digits of `n`, left-padded with `0` to at least `w`.
pub(crate) fn padded(n: u64, w: usize) -> (res: String)
    ensures
        res@ == pad_zero(decimal(n as nat), w as nat),
{
    let d = decimal_chars(n);
    if d.len() >= w {
        return string_from_chars(&d);
    }
    let mut out: Vec<char> = Vec::new();
    let pad = w - d.len();
    let mut i: usize = 0;
    while i < pad
        invariant
            i <= pad,
            out@ == Seq::new(i as nat, |j: int| '0'),
        decreases pad - i,
    {
        out.push('0');
        i = i + 1;
        assert(out@ =~= Seq::new(i as nat, |j: int| '0'));
    }
    let mut dd = d;
    out.append(&mut dd);
    string_from_chars(&out)
}

/// A calendar date of the proleptic Gregorian calendar.
#[derive(Debug, Clone, Copy, PartialEq, Eq, Hash, Structural)]
pub struct CalendarDate {
    /// Year.
    pub year: i32,
    /// Month, 1 to 12.
    pub month: u32,
    /// Day of the month.
    pub day: u32,
}

impl CalendarDate {
    /// Whether the fields form a valid date.
    pub open spec fn wf(&self) -> bool {
        valid_ymd(self.year as int, self.month as int, self.day as int)
    }

    /// The date `year-month-day`, if it exists.
    pub fn from_ymd(year: i32, month: u32, day: u32) -> (res: Option<CalendarDate>)
        ensures
            valid_ymd(year as int, month as int, day as int) ==> res == Some(
                CalendarDate { year, month, day },
            ),
            !valid_ymd(year as int, month as int, day as int) ==> res is None,
    {
        if date_exists(year, month, day) {
            Some(CalendarDate { year, month, day })
        } else {
            None
        }
    }

    /// The date as `YYYY-MM-DD`.
    pub fn to_display_string(&self) -> (res: String)
        ensures
            res@ == date_text(self.year as int, self.month as int, self.day as int),
    {
        let mut r = if 0 <= self.year && self.year <= 9999 {
            padded(self.year as u64, 4)
        } else if self.year >= 0 {
            let p = padded(self.year as u64, 4);
            concat2("+", p.as_str())
        } else {
            let p = padded((-(self.year as i64)) as u64, 4);
            concat2("-", p.as_str())
        };
        r.append("-");
        let m = padded(self.month as u64, 2);
        r.append(m.as_str());
        r.append("-");
        let d = padded(self.day as u64, 2);
        r.append(d.as_str());
        r
    }
}

// ── URLs ────────────────────────────────────────────────────────────────────

/// What `url::Url::parse` gives for `s`: the serialization of the parsed
/// URL, or `None` if `s` is not a valid absolute URL.
pub uninterp spec fn url_parse(s: Seq<char>) -> Option<Seq<char>>;

/// Calls `url::Url::parse` and gives the parsed URL's serialization
/// (`Url::as_str`). The result is named by `url_parse`.
#[verifier::external_body]
fn parse_url(s: &str) -> (res: Option<String>)
    ensures
        opt_view(res) == url_parse(s@),
{
    url::Url::parse(s).ok().map(|u| u.as_str().to_owned())
}

// ── Preset arguments ────────────────────────────────────────────────────────

/// A typed preset argument.
#[derive(Debug, Clone, PartialEq)]
pub enum PresetArg {
    /// A calendar date.
    Date(CalendarDate),
    /// A URL, in its parsed serialization.
    Url(String),
    /// Free text.
    Text(String),
}

/// The kind of an argument.
pub open spec fn arg_kind(a: PresetArg) -> PresetArgKind {
    match a {
        PresetArg::Date(_) => PresetArgKind::Date,
        PresetArg::Url(_) => PresetArgKind::Url,
        PresetArg::Text(_) => PresetArgKind::Text,
    }
}

/// Why a tagged argument could not be read.
#[derive(Debug, Clone, Copy, PartialEq, Eq, Structural)]
pub enum PresetArgError {
    /// The date is not `YYYY-MM-DD`.
    InvalidDate,
    /// The URL does not parse.
    InvalidUrl,
    /// The tag is none of `date`, `url` and `text`.
    UnknownKind,
}

/// Whether `a` is the argument tagged `key` with text `value`.
pub open spec fn is_tagged_arg(res: Result<PresetArg, PresetArgError>, key: Seq<char>, value: Seq<char>) -> bool {
    if key == "date"@ {
        match iso_date_parse(value) {
            Some(t) => res == Ok::<PresetArg, PresetArgError>(
                PresetArg::Date(CalendarDate { year: t.0 as i32, month: t.1 as u32, day: t.2 as u32 }),
            ),
            None => res == Err::<PresetArg, PresetArgError>(PresetArgError::InvalidDate),
        }
    } else if key == "url"@ {
        match url_parse(value) {
            Some(u) => res matches Ok(PresetArg::Url(x)) && x@ == u,
            None => res == Err::<PresetArg, PresetArgError>(PresetArgError::InvalidUrl),
        }
    } else if key == "text"@ {
        res matches Ok(PresetArg::Text(x)) && x@ == value
    } else {
        res == Err::<PresetArg, PresetArgError>(PresetArgError::UnknownKind)
    }
}

/// The text of an argument as `Display` shows it.
pub open spec fn arg_text(a: PresetArg) -> Seq<char> {
    match a {
        PresetArg::Date(d) => date_text(d.year as int, d.month as int, d.day as int),
        PresetArg::Url(u) => u@,
        PresetArg::Text(t) => t@,
    }
}

impl PresetArg {
    /// The kind of this argument.
    pub fn kind(&self) -> (res: PresetArgKind)
        ensures
            res == arg_kind(*self),
    {
        match self {
            PresetArg::Date(_) => PresetArgKind::Date,
            PresetArg::Url(_) => PresetArgKind::Url,
            PresetArg::Text(_) => PresetArgKind::Text,
        }
    }

    /// A URL argument, if `s` parses as a URL.
    pub fn url(s: &str) -> (res: Option<PresetArg>)
        ensures
            match url_parse(s@) {
                Some(u) => res matches Some(PresetArg::Url(x)) && x@ == u,
                None => res is None,
            },
    {
        match parse_url(s) {
            Some(u) => Some(PresetArg::Url(u)),
            None => None,
        }
    }

    /// Reads an argument stored as a one-entry object `{key: value}`: `date`
    /// takes a `YYYY-MM-DD` date, `url` a URL and `text` any text; any other
    /// key is an unknown kind.
    pub fn from_tagged(key: &str, value: &str) -> (res: Result<PresetArg, PresetArgError>)
        ensures
            is_tagged_arg(res, key@, value@),
            key@ == "date"@ ==> forall|d: CalendarDate|
                d.wf() && value@ == #[trigger] date_text(d.year as int, d.month as int, d.day as int)
                    ==> res == Ok::<PresetArg, PresetArgError>(PresetArg::Date(d)),
    {
        if str_eq(key, "date") {
            match parse_iso_date(value) {
                Some(t) => Ok(PresetArg::Date(CalendarDate { year: t.0, month: t.1, day: t.2 })),
                None => Err(PresetArgError::InvalidDate),
            }
        } else if str_eq(key, "url") {
            match parse_url(value) {
                Some(u) => Ok(PresetArg::Url(u)),
                None => Err(PresetArgError::InvalidUrl),
            }
        } else if str_eq(key, "text") {
            Ok(PresetArg::Text(value.to_owned()))
        } else {
            Err(PresetArgError::UnknownKind)
        }
    }

    /// The argument as `Display` shows it: a date as `YYYY-MM-DD`, a URL or
    /// text as it is.
    pub fn to_display_string(&self) -> (res: String)
        ensures
            res@ == arg_text(*self),
    {
        match self {
            PresetArg::Date(d) => d.to_display_string(),
            PresetArg::Url(u) => u.clone(),
            PresetArg::Text(t) => t.clone(),
        }
    }
}

/// The kinds of a sequence of arguments.
pub open spec fn arg_kinds(v: Seq<PresetArg>) -> Seq<PresetArgKind> {
    v.map_values(|a: PresetArg| arg_kind(a))
}

/// The first position whose kind already occurs before it; -1 if none.
pub open spec fn first_repeat(ks: Seq<PresetArgKind>) -> int {
    if exists|j: int| 0 <= j < ks.len() && #[trigger] ks.take(j).contains(ks[j]) {
        choose|j: int|
            0 <= j < ks.len() && #[trigger] ks.take(j).contains(ks[j]) && forall|q: int|
                0 <= q < j ==> !ks.take(q).contains(ks[q])
    } else {
        -1
    }
}

/// A list of preset arguments, no two of the same kind.
#[derive(Debug, Clone, PartialEq)]
pub struct PresetArgs(Vec<PresetArg>);

impl PresetArgs {
    /// The arguments, in order.
    pub closed spec fn view(&self) -> Seq<PresetArg> {
        self.0@
    }

    /// No two arguments have the same kind.
    pub closed spec fn wf(&self) -> bool {
        arg_kinds(self.0@).no_duplicates()
    }

    /// No arguments.
    pub fn empty() -> (res: PresetArgs)
        ensures
            res.wf(),
            res@ == Seq::<PresetArg>::empty(),
    {
        let r = PresetArgs(Vec::new());
        assert(arg_kinds(r.0@) =~= Seq::<PresetArgKind>::empty());
        r
    }

    /// The arguments of `v`, or `DuplicatePresetArgKind` with the kind of the
    /// first argument whose kind occurs earlier in `v`.
    pub fn from_vec(v: Vec<PresetArg>) -> (res: Result<PresetArgs, DomainError>)
        ensures
            arg_kinds(v@).no_duplicates() ==> (res matches Ok(a) && a.wf() && a@ == v@),
            !arg_kinds(v@).no_duplicates() ==> (res matches Err(DomainError::DuplicatePresetArgKind(
                k,
            )) && exists|j: int|
                0 <= j < v@.len() && arg_kinds(v@)[j] == k && #[trigger] arg_kinds(v@).take(
                    j,
                ).contains(k) && arg_kinds(v@).take(j).no_duplicates()),
    {
        let ghost ks = arg_kinds(v@);
        let mut seen: Vec<PresetArgKind> = Vec::new();
        let mut i: usize = 0;
        while i < v.len()
            invariant
                ks == arg_kinds(v@),
                i <= v@.len(),
                seen@ == ks.take(i as int),
                seen@.no_duplicates(),
            decreases v.len() - i,
        {
            let k = v[i].kind();
            let mut m: usize = 0;
            let mut dup = false;
            while m < seen.len()
                invariant
                    m <= seen@.len(),
                    dup == seen@.take(m as int).contains(k),
                decreases seen.len() - m,
            {
                proof {
                    assert(seen@.take(m + 1) =~= seen@.take(m as int).push(seen@[m as int]));
                }
                if seen[m] == k {
                    dup = true;
                }
                m = m + 1;
            }
            assert(seen@.take(seen@.len() as int) =~= seen@);
            if dup {
                assert(ks[i as int] == k);
                return Err(DomainError::DuplicatePresetArgKind(k));
            }
            proof {
                assert(ks.take(i + 1) =~= ks.take(i as int).push(k));
            }
            seen.push(k);
            i = i + 1;
        }
        assert(ks.take(v@.len() as int) =~= ks);
        Ok(PresetArgs(v))
    }

    /// Whether there are no arguments.
    pub fn is_empty(&self) -> (res: bool)
        ensures
            res == (self@.len() == 0),
    {
        self.0.len() == 0
    }

    /// The number of arguments.
    pub fn len(&self) -> (res: usize)
        ensures
            res == self@.len(),
    {
        self.0.len()
    }

    /// The first argument of kind `kind`, if any.
    pub fn get(&self, kind: PresetArgKind) -> (res: Option<&PresetArg>)
        ensures
            match res {
                Some(a) => exists|j: int|
                    0 <= j < self@.len() && self@[j] == *a && arg_kind(*a) == kind && forall|q: int|
                        0 <= q < j ==> arg_kind(#[trigger] self@[q]) != kind,
                None => forall|q: int| 0 <= q < self@.len() ==> arg_kind(#[trigger] self@[q]) != kind,
            },
    {
        let mut i: usize = 0;
        while i < self.0.len()
            invariant
                i <= self@.len(),
                forall|q: int| 0 <= q < i ==> arg_kind(#[trigger] self@[q]) != kind,
            decreases self.0.len() - i,
        {
            if self.0[i].kind() == kind {
                return Some(&self.0[i]);
            }
            i = i + 1;
        }
        None
    }

    /// The argument at position `i`.
    pub fn at(&self, i: usize) -> (res: &PresetArg)
        requires
            i < self@.len(),
        ensures
            *res == self@[i as int],
    {
        &self.0[i]
    }

    /// The arguments, in order.
    pub fn into_vec(self) -> (res: Vec<PresetArg>)
        ensures
            res@ == self@,
    {
        self.0
    }
}

impl Default for PresetArgs {
    /// No arguments.
    fn default() -> (res: Self)
        ensures
            res.wf(),
            res@ == Seq::<PresetArg>::empty(),
    {
        PresetArgs::empty()
    }
}

// ── Presets ─────────────────────────────────────────────────────────────────

/// The block fields a preset may never patch.
pub open spec fn forbidden_patch_key(k: Seq<char>) -> bool {
    k == "content"@ || k == "text"@ || k == "children"@
}

/// Whether a key is one a preset may never patch.
pub fn is_forbidden_patch_key(k: &str) -> (res: bool)
    ensures
        res == forbidden_patch_key(k@),
{
    str_eq(k, "content") || str_eq(k, "text") || str_eq(k, "children")
}

/// A named bundle of property patches applied to a block by a slash
/// command.
#[derive(Debug, Clone, PartialEq)]
pub struct PropertyPreset {
    /// The preset's id.
    pub id: PresetId,
    /// The patches, in order.
    pub patches: Vec<PropertyPatch>,
    /// The arguments it needs.
    pub required_args: PresetArgs,
    /// What it does.
    pub description: String,
}

impl PropertyPreset {
    /// A preset, or `ForbiddenPatchKey` with the key of the first patch that
    /// targets `content`, `text` or `children`.
    pub fn new(id: PresetId, patches: Vec<PropertyPatch>, required_args: PresetArgs, description: &str) -> (res: Result<PropertyPreset, DomainError>)
        ensures
            (forall|i: int| 0 <= i < patches@.len() ==> !forbidden_patch_key(#[trigger] patches@[i].key@)) ==> (res matches Ok(p) && p.id == id && p.patches == patches && p.required_args == required_args && p.description@ == description@),
            (exists|i: int| 0 <= i < patches@.len() && forbidden_patch_key(#[trigger] patches@[i].key@)) ==> (res matches Err(DomainError::ForbiddenPatchKey(k)) && exists|i: int| 0 <= i < patches@.len() && #[trigger] patches@[i].key@ == k@ && forbidden_patch_key(k@) && forall|q: int| 0 <= q < i ==> !forbidden_patch_key(#[trigger] patches@[q].key@)),
    {
        let mut i: usize = 0;
        while i < patches.len()
            invariant
                i <= patches@.len(),
                forall|q: int| 0 <= q < i ==> !forbidden_patch_key(#[trigger] patches@[q].key@),
            decreases patches.len() - i,
        {
            let key = patches[i].key.as_str();
            if is_forbidden_patch_key(key) {
                return Err(DomainError::ForbiddenPatchKey(key.to_owned()));
            }
            i = i + 1;
        }
        Ok(PropertyPreset { id, patches, required_args, description: description.to_owned() })
    }

    /// The same preset with another description.
    pub fn with_description(self, description: &str) -> (res: PropertyPreset)
        ensures
            res.id == self.id,
            res.patches == self.patches,
            res.required_args == self.required_args,
            res.description@ == description@,
    {
        PropertyPreset { description: description.to_owned(), ..self }
    }
}

} // verus!
