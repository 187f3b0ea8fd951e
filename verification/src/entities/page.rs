//! Pages of the knowledge graph: regular pages with a name, journal pages
//! (daily notes) and namespace pages.

use crate::clock::now_millis;
use crate::errors::domain_error::DomainError;
use crate::text::{
    all_ascii, ascii_lower, ascii_lower_seq, chars_of, concat2, contains_char, is_ascii_digit_spec,
    is_ws, lemma_trim_ends, lemma_trim_of_trimmed, lowercase_of, to_lowercase, trim, trim_seq,
};
use crate::value_objects::{BlockFormat, JournalDay, Uuid};
use crate::canonicalization::presets::date_text;
use vstd::prelude::*;

verus! {

// ── Page names ──────────────────────────────────────────────────────────────

/// The first character of a page name that may not stand in it, checked in
/// the order `/ # ? : | < > * " \`.
pub open spec fn forbidden_name_char(s: Seq<char>) -> Option<char> {
    if s.contains('/') {
        Some('/')
    } else if s.contains('#') {
        Some('#')
    } else if s.contains('?') {
        Some('?')
    } else if s.contains(':') {
        Some(':')
    } else if s.contains('|') {
        Some('|')
    } else if s.contains('<') {
        Some('<')
    } else if s.contains('>') {
        Some('>')
    } else if s.contains('*') {
        Some('*')
    } else if s.contains('"') {
        Some('"')
    } else if s.contains('\\') {
        Some('\\')
    } else {
        None
    }
}

/// Whether every character of `s` is an ASCII digit.
pub open spec fn all_ascii_digits(s: Seq<char>) -> bool {
    forall|i: int| 0 <= i < s.len() ==> is_ascii_digit_spec(#[trigger] s[i])
}

/// The check of a normalized page name: the name itself when it is valid,
/// else the message of the error. A forbidden character is reported first,
/// then an empty name, then a name of digits only.
pub open spec fn name_check(s: Seq<char>) -> Result<Seq<char>, Seq<char>> {
    match forbidden_name_char(s) {
        Some(c) => Err("Page name cannot contain '"@ + seq![c] + "'"@),
        None => if s.len() == 0 {
            Err("Page name cannot be empty"@)
        } else if all_ascii_digits(s) {
            Err("Page name cannot be only numbers"@)
        } else {
            Ok(s)
        },
    }
}

/// A name the check accepts is the name itself, is not empty, is not all
/// digits, and holds none of `/ # ? : | < > * " \\`; a name holding one of
/// them is refused.
pub proof fn lemma_accepted_names_are_clean(s: Seq<char>)
    ensures
        name_check(s) matches Ok(n) ==> n == s && n.len() > 0 && !all_ascii_digits(n) && forall|i: int|
            0 <= i < n.len() ==> {
                let c = #[trigger] n[i];
                c != '/' && c != '#' && c != '?' && c != ':' && c != '|' && c != '<' && c != '>' && c
                    != '*' && c != '"' && c != '\\'
            },
        (exists|i: int|
            0 <= i < s.len() && {
                let c = #[trigger] s[i];
                c == '/' || c == '#' || c == '?' || c == ':' || c == '|' || c == '<' || c == '>' || c
                    == '*' || c == '"' || c == '\\'
            }) ==> name_check(s) is Err,
{
    assert forall|i: int| 0 <= i < s.len() && forbidden_name_char(s) is None implies {
        let c = #[trigger] s[i];
        c != '/' && c != '#' && c != '?' && c != ':' && c != '|' && c != '<' && c != '>' && c != '*'
            && c != '"' && c != '\\'
    } by {
        assert(s.contains(s[i]));
    }
}

/// The normalized form of a raw page name: trimmed, then lower-cased.
pub open spec fn normalized_page_name(raw: Seq<char>) -> Seq<char> {
    lowercase_of(trim_seq(raw))
}

/// Whether `res` is the outcome that `check` describes, as a page-name
/// result.
pub open spec fn name_result_matches(
    res: Result<String, DomainError>,
    check: Result<Seq<char>, Seq<char>>,
) -> bool {
    match check {
        Ok(n) => res matches Ok(r) && r@ == n,
        Err(m) => res matches Err(DomainError::InvalidPageName(r)) && r@ == m,
    }
}

fn forbidden_char_of(cs: &Vec<char>) -> (res: Option<char>)
    ensures
        res == forbidden_name_char(cs@),
{
    if contains_char(cs, '/') {
        Some('/')
    } else if contains_char(cs, '#') {
        Some('#')
    } else if contains_char(cs, '?') {
        Some('?')
    } else if contains_char(cs, ':') {
        Some(':')
    } else if contains_char(cs, '|') {
        Some('|')
    } else if contains_char(cs, '<') {
        Some('<')
    } else if contains_char(cs, '>') {
        Some('>')
    } else if contains_char(cs, '*') {
        Some('*')
    } else if contains_char(cs, '"') {
        Some('"')
    } else if contains_char(cs, '\\') {
        Some('\\')
    } else {
        None
    }
}

/// Checks an already normalized page name (see `name_check`): gives it
/// back, or fails with `InvalidPageName` and the message.
pub fn validate_normalized_name(normalized: String) -> (res: Result<String, DomainError>)
    ensures
        name_result_matches(res, name_check(normalized@)),
{
    let cs = chars_of(normalized.as_str());
    if let Some(c) = forbidden_char_of(&cs) {
        let mut m = "Page name cannot contain '".to_owned();
        let mut one: Vec<char> = Vec::new();
        one.push(c);
        let cstr = crate::text::string_from_chars(&one);
        m.append(cstr.as_str());
        m.append("'");
        assert(one@ =~= seq![c]);
        return Err(DomainError::InvalidPageName(m));
    }
    if cs.len() == 0 {
        return Err(DomainError::InvalidPageName("Page name cannot be empty".to_owned()));
    }
    let mut i: usize = 0;
    while i < cs.len()
        invariant
            cs@ == normalized@,
            forbidden_name_char(normalized@) is None,
            cs@.len() > 0,
            i <= cs@.len(),
            forall|j: int| 0 <= j < i ==> is_ascii_digit_spec(#[trigger] cs@[j]),
        decreases cs.len() - i,
    {
        if !('0' <= cs[i] && cs[i] <= '9') {
            assert(!all_ascii_digits(normalized@)) by {
                assert(!is_ascii_digit_spec(cs@[i as int]));
            }
            return Ok(normalized);
        }
        i = i + 1;
    }
    Err(DomainError::InvalidPageName("Page name cannot be only numbers".to_owned()))
}

// ── Pages ───────────────────────────────────────────────────────────────────

/// A page. Times are milliseconds since the Unix epoch.
#[derive(Debug, Clone, PartialEq)]
pub struct Page {
    /// Unique identifier.
    pub id: Uuid,
    /// Canonical name (trimmed, lower-case, unique).
    pub name: String,
    /// Display title.
    pub title: Option<String>,
    /// Parent namespace, for hierarchical pages.
    pub namespace_id: Option<Uuid>,
    /// The day, for a journal page.
    pub journal_day: Option<JournalDay>,
    /// Markdown or Org.
    pub format: BlockFormat,
    /// The file the page comes from, for file-based pages.
    pub file_id: Option<Uuid>,
    /// The name before the last rename.
    pub original_name: Option<String>,
    /// Whether this is a journal page.
    pub journal: bool,
    /// Creation time.
    pub created_at: i64,
    /// Last update time.
    pub updated_at: i64,
}

/// What is needed to create a page.
#[derive(Debug, Clone)]
pub struct PageCreate {
    /// The raw name; it is normalized.
    pub name: String,
    /// Display title.
    pub title: Option<String>,
    /// Parent namespace.
    pub namespace_id: Option<Uuid>,
    /// The day, for a journal page.
    pub journal_day: Option<JournalDay>,
    /// Markdown or Org.
    pub format: BlockFormat,
    /// The file the page comes from.
    pub file_id: Option<Uuid>,
}

impl Default for PageCreate {
    /// An empty name, no title, namespace, day or file, Markdown.
    fn default() -> (res: Self)
        ensures
            res.name@.len() == 0,
            res.title is None,
            res.namespace_id is None,
            res.journal_day is None,
            res.format == BlockFormat::Markdown,
            res.file_id is None,
    {
        PageCreate {
            name: String::new(),
            title: None,
            namespace_id: None,
            journal_day: None,
            format: BlockFormat::Markdown,
            file_id: None,
        }
    }
}

/// Whether `p` is the page that `c` describes, with name `name`, the given
/// id and creation time: no original name, a journal exactly when `c`
/// names a day.
pub open spec fn is_created_page(p: Page, c: PageCreate, name: Seq<char>, id: Uuid, now: i64) -> bool {
    &&& p.id == id
    &&& p.name@ == name
    &&& p.title == c.title
    &&& p.namespace_id == c.namespace_id
    &&& p.journal_day == c.journal_day
    &&& p.format == c.format
    &&& p.file_id == c.file_id
    &&& p.original_name is None
    &&& p.journal == c.journal_day is Some
    &&& p.created_at == now
    &&& p.updated_at == now
}

/// Whether `p` is the journal page of `day`: named and titled by the day
/// as `YYYY-MM-DD`, with the given id and creation time.
pub open spec fn is_journal_page(p: Page, day: JournalDay, format: BlockFormat, id: Uuid, now: i64) -> bool {
    let text = date_text(
        day.spec_date().year as int,
        day.spec_date().month as int,
        day.spec_date().day as int,
    );
    &&& p.id == id
    &&& p.name@ == text
    &&& p.title matches Some(t) && t@ == text
    &&& p.namespace_id is None
    &&& p.journal_day == Some(day)
    &&& p.format == format
    &&& p.file_id is None
    &&& p.original_name is None
    &&& p.journal
    &&& p.created_at == now
    &&& p.updated_at == now
}

/// Whether `after` is `before` renamed to `name`: the old name becomes the
/// original name; only the update time may change besides.
pub open spec fn is_renamed(after: Page, before: Page, name: Seq<char>) -> bool {
    &&& after.name@ == name
    &&& after.original_name == Some(before.name)
    &&& after.id == before.id
    &&& after.title == before.title
    &&& after.namespace_id == before.namespace_id
    &&& after.journal_day == before.journal_day
    &&& after.format == before.format
    &&& after.file_id == before.file_id
    &&& after.journal == before.journal
    &&& after.created_at == before.created_at
}

/// The empty name normalizes to the empty name.
proof fn lemma_empty_name(raw: Seq<char>)
    requires
        raw.len() == 0,
        all_ascii(raw) ==> normalized_page_name(raw) == ascii_lower_seq(trim_seq(raw)),
    ensures
        normalized_page_name(raw).len() == 0,
{
    assert(all_ascii(raw));
    assert(trim_seq(raw) =~= Seq::<char>::empty());
    assert(ascii_lower_seq(trim_seq(raw)) =~= Seq::<char>::empty());
}

impl Page {
    /// Normalizes a page name: trims it, lower-cases it, and checks it (see
    /// `name_check`). Fails with `InvalidPageName`.
    pub fn normalize_name(name: &str) -> (res: Result<String, DomainError>)
        ensures
            name_result_matches(res, name_check(normalized_page_name(name@))),
            all_ascii(name@) ==> normalized_page_name(name@) == ascii_lower_seq(trim_seq(name@)),
    {
        let t = trim(name);
        let lower = to_lowercase(t.as_str());
        validate_normalized_name(lower)
    }

    /// Whether `name` normalizes to a valid page name.
    pub fn is_valid_name(name: &str) -> (res: bool)
        ensures
            res == name_check(normalized_page_name(name@)) is Ok,
    {
        Self::normalize_name(name).is_ok()
    }

    /// Creates a page with the given id and creation time. Fails with
    /// `InvalidPageName` when the name does not normalize to a valid name.
    pub fn new_at(create: PageCreate, id: Uuid, now: i64) -> (res: Result<Page, DomainError>)
        ensures
            match name_check(normalized_page_name(create.name@)) {
                Ok(n) => res matches Ok(p) && is_created_page(p, create, n, id, now),
                Err(m) => res matches Err(DomainError::InvalidPageName(r)) && r@ == m,
            },
    {
        let name = match Self::normalize_name(create.name.as_str()) {
            Ok(n) => n,
            Err(e) => {
                return Err(e);
            },
        };
        if create.journal_day.is_some() && create.name.as_str().unicode_len() == 0 {
            proof {
                lemma_empty_name(create.name@);
            }
            return Err(DomainError::InvalidPageName("Journal pages must have a name".to_owned()));
        }
        let journal = create.journal_day.is_some();
        Ok(Page {
            id,
            name,
            title: create.title,
            namespace_id: create.namespace_id,
            journal_day: create.journal_day,
            format: create.format,
            file_id: create.file_id,
            original_name: None,
            journal,
            created_at: now,
            updated_at: now,
        })
    }

    /// Creates a page with a fresh random id, created now. Fails as
    /// `new_at` does.
    pub fn new(create: PageCreate) -> (res: Result<Page, DomainError>)
        ensures
            match name_check(normalized_page_name(create.name@)) {
                Ok(n) => res matches Ok(p) && is_created_page(p, create, n, p.id, p.created_at)
                    && p.id.value != 0,
                Err(m) => res matches Err(DomainError::InvalidPageName(r)) && r@ == m,
            },
    {
        let now = now_millis();
        let id = Uuid::new_v4();
        Self::new_at(create, id, now)
    }

    /// The journal page of `day`, with the given id and creation time.
    pub fn new_journal_at(day: JournalDay, format: BlockFormat, id: Uuid, now: i64) -> (res: Result<
        Page,
        DomainError,
    >)
        ensures
            res matches Ok(p) && is_journal_page(p, day, format, id, now),
    {
        let name = day.to_display_string();
        let title = day.to_display_string();
        Ok(Page {
            id,
            name,
            title: Some(title),
            namespace_id: None,
            journal_day: Some(day),
            format,
            file_id: None,
            original_name: None,
            journal: true,
            created_at: now,
            updated_at: now,
        })
    }

    /// The journal page of `day`, with a fresh random id, created now. It
    /// never fails.
    pub fn new_journal(day: JournalDay, format: BlockFormat) -> (res: Result<Page, DomainError>)
        ensures
            res matches Ok(p) && is_journal_page(p, day, format, p.id, p.created_at) && p.id.value
                != 0,
    {
        let now = now_millis();
        let id = Uuid::new_v4();
        Self::new_journal_at(day, format, id, now)
    }

    /// Renames the page at time `now`: the new name is normalized; the old
    /// name is kept as the original name. When the new name is invalid the
    /// page is unchanged and the error is returned.
    pub fn rename_at(&mut self, new_name: &str, now: i64) -> (res: Result<(), DomainError>)
        ensures
            match name_check(normalized_page_name(new_name@)) {
                Ok(n) => res is Ok && is_renamed(*final(self), *old(self), n)
                    && final(self).updated_at == now,
                Err(m) => res matches Err(DomainError::InvalidPageName(r)) && r@ == m
                    && *final(self) == *old(self),
            },
    {
        let normalized = match Self::normalize_name(new_name) {
            Ok(n) => n,
            Err(e) => {
                return Err(e);
            },
        };
        let mut old_name = normalized;
        std::mem::swap(&mut old_name, &mut self.name);
        self.original_name = Some(old_name);
        self.updated_at = now;
        Ok(())
    }

    /// Renames the page, now (see `rename_at`).
    pub fn rename(&mut self, new_name: &str) -> (res: Result<(), DomainError>)
        ensures
            match name_check(normalized_page_name(new_name@)) {
                Ok(n) => res is Ok && is_renamed(*final(self), *old(self), n),
                Err(m) => res matches Err(DomainError::InvalidPageName(r)) && r@ == m
                    && *final(self) == *old(self),
            },
    {
        let now = now_millis();
        self.rename_at(new_name, now)
    }

    /// Whether this is a journal page.
    pub fn is_journal(&self) -> (res: bool)
        ensures
            res == self.journal,
    {
        self.journal
    }

    /// Whether this is a namespace page: no parent namespace, not a journal,
    /// no file.
    pub fn is_namespace(&self) -> (res: bool)
        ensures
            res == (self.namespace_id is None && !self.journal && self.file_id is None),
    {
        self.namespace_id.is_none() && !self.journal && self.file_id.is_none()
    }

    /// The name with its namespace: `../` and the name under a namespace,
    /// the name alone otherwise.
    pub fn full_name(&self) -> (res: String)
        ensures
            res@ == (if self.namespace_id is Some {
                "../"@ + self.name@
            } else {
                self.name@
            }),
    {
        if self.namespace_id.is_some() {
            concat2("../", self.name.as_str())
        } else {
            self.name.clone()
        }
    }
}

/// A normalized ASCII page name is canonical: it is ASCII, trimmed and
/// lower-case, so trimming and lower-casing it again gives it back, and
/// `normalize_name` of a valid normalized name returns that same name.
pub proof fn lemma_normalized_name_is_canonical(raw: Seq<char>)
    requires
        all_ascii(raw),
    ensures
        ({
            let n = ascii_lower_seq(trim_seq(raw));
            &&& all_ascii(n)
            &&& trim_seq(n) == n
            &&& ascii_lower_seq(trim_seq(n)) == n
        }),
{
    let t = trim_seq(raw);
    let n = ascii_lower_seq(t);
    lemma_trim_ends(raw);
    assert(all_ascii(t)) by {
        if t.len() > 0 {
            assert forall|i: int| 0 <= i < t.len() implies crate::text::is_ascii_char(#[trigger] t[i]) by {
                assert(t[i] == raw[crate::text::lead_ws(raw) + i]);
            }
        }
    }
    assert(all_ascii(n)) by {
        assert forall|i: int| 0 <= i < n.len() implies crate::text::is_ascii_char(#[trigger] n[i]) by {
            assert(n[i] == ascii_lower(t[i]));
        }
    }
    if n.len() > 0 {
        assert(n[0] == ascii_lower(t[0]));
        assert(n.last() == ascii_lower(t.last()));
    }
    lemma_trim_of_trimmed(n);
    assert(ascii_lower_seq(n) =~= n) by {
        assert forall|i: int| 0 <= i < n.len() implies #[trigger] ascii_lower_seq(n)[i] == n[i] by {
            assert(n[i] == ascii_lower(t[i]));
        }
    }
}

} // verus!
