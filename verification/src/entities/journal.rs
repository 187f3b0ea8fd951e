//! Journals: pages for daily notes, one per day. A journal's name is the
//! day in ISO form (`YYYY-MM-DD`), which keeps look-ups stable; its title
//! follows the user's journal date format.

use crate::canonicalization::presets::{date_text, pad_zero, padded};
use crate::entities::page::Page;
use crate::errors::domain_error::DomainError;
use crate::text::{chars_of, decimal, string_from_chars};
use crate::value_objects::{BlockFormat, JournalDay};
use vstd::prelude::*;

verus! {

/// Whether `s` starts with the token `yyyy`.
pub open spec fn starts_year_token(s: Seq<char>) -> bool {
    s.len() >= 4 && s[0] == 'y' && s[1] == 'y' && s[2] == 'y' && s[3] == 'y'
}

/// Whether `s` starts with the token `MM`.
pub open spec fn starts_month_token(s: Seq<char>) -> bool {
    s.len() >= 2 && s[0] == 'M' && s[1] == 'M'
}

/// Whether `s` starts with the token `dd`.
pub open spec fn starts_day_token(s: Seq<char>) -> bool {
    s.len() >= 2 && s[0] == 'd' && s[1] == 'd'
}

/// A date written in the journal date format `fmt`: read from the left,
/// each `yyyy` becomes the year `y`, each `MM` the month `m` and each `dd`
/// the day `d`; every other character is copied.
pub open spec fn format_with(fmt: Seq<char>, y: Seq<char>, m: Seq<char>, d: Seq<char>) -> Seq<
    char,
>
    decreases fmt.len(),
{
    if fmt.len() == 0 {
        Seq::empty()
    } else if starts_year_token(fmt) {
        y + format_with(fmt.skip(4), y, m, d)
    } else if starts_month_token(fmt) {
        m + format_with(fmt.skip(2), y, m, d)
    } else if starts_day_token(fmt) {
        d + format_with(fmt.skip(2), y, m, d)
    } else {
        seq![fmt[0]] + format_with(fmt.skip(1), y, m, d)
    }
}

/// The title of the journal of `day` under the journal date format `fmt`:
/// four-digit year, two-digit month and day.
pub open spec fn journal_title(day: JournalDay, fmt: Seq<char>) -> Seq<char> {
    let date = day.spec_date();
    format_with(
        fmt,
        pad_zero(decimal(date.year as nat), 4),
        pad_zero(decimal(date.month as nat), 2),
        pad_zero(decimal(date.day as nat), 2),
    )
}

/// Writes `day` in the journal date format `journal_format` (see
/// `format_with`).
pub fn format_journal_day(day: JournalDay, journal_format: &str) -> (res: String)
    ensures
        res@ == journal_title(day, journal_format@),
{
    let y = padded(day.year() as u64, 4);
    let m = padded(day.month() as u64, 2);
    let d = padded(day.day() as u64, 2);
    let yc = chars_of(y.as_str());
    let mc = chars_of(m.as_str());
    let dc = chars_of(d.as_str());
    let fc = chars_of(journal_format);
    let ghost fs = fc@;
    let mut out: Vec<char> = Vec::new();
    let mut i: usize = 0;
    proof {
        assert(fs.skip(0) =~= fs);
        assert(out@ + fs =~= fs);
    }
    while i < fc.len()
        invariant
            fs == fc@,
            i <= fs.len(),
            out@ + format_with(fs.skip(i as int), yc@, mc@, dc@) == format_with(
                fs,
                yc@,
                mc@,
                dc@,
            ),
        decreases fc.len() - i,
    {
        let ghost rest = fs.skip(i as int);
        let n = fc.len() - i;
        if n >= 4 && fc[i] == 'y' && fc[i + 1] == 'y' && fc[i + 2] == 'y' && fc[i + 3] == 'y' {
            let mut part = yc.clone();
            out.append(&mut part);
            proof {
                assert(rest.skip(4) =~= fs.skip(i + 4));
                assert(starts_year_token(rest));
            }
            i = i + 4;
        } else if n >= 2 && fc[i] == 'M' && fc[i + 1] == 'M' {
            let mut part = mc.clone();
            out.append(&mut part);
            proof {
                assert(rest.skip(2) =~= fs.skip(i + 2));
                assert(!starts_year_token(rest));
                assert(starts_month_token(rest));
            }
            i = i + 2;
        } else if n >= 2 && fc[i] == 'd' && fc[i + 1] == 'd' {
            let mut part = dc.clone();
            out.append(&mut part);
            proof {
                assert(rest.skip(2) =~= fs.skip(i + 2));
                assert(!starts_year_token(rest));
                assert(!starts_month_token(rest));
                assert(starts_day_token(rest));
            }
            i = i + 2;
        } else {
            let c = fc[i];
            out.push(c);
            proof {
                assert(rest.skip(1) =~= fs.skip(i + 1));
                assert(!starts_year_token(rest));
                assert(!starts_month_token(rest));
                assert(!starts_day_token(rest));
                assert(rest[0] == c);
                assert(out@ == (out@.drop_last()) + seq![c]);
            }
            i = i + 1;
        }
    }
    proof {
        assert(fs.skip(i as int) =~= Seq::<char>::empty());
        assert(out@ + Seq::<char>::empty() =~= out@);
    }
    string_from_chars(&out)
}

/// A journal: the page of one day.
#[derive(Debug, Clone, PartialEq)]
pub struct Journal {
    page: Page,
    journal_day: JournalDay,
}

impl Journal {
    /// The page of the journal.
    pub closed spec fn spec_page(&self) -> Page {
        self.page
    }

    /// The day of the journal.
    pub closed spec fn spec_day(&self) -> JournalDay {
        self.journal_day
    }

    /// The journal of `day`: a fresh journal page of that day, named
    /// `YYYY-MM-DD` and titled by `journal_format`. It never fails.
    pub fn new(day: JournalDay, format: BlockFormat, journal_format: &str) -> (res: Result<
        Journal,
        DomainError,
    >)
        ensures
            res matches Ok(j) && j.spec_day() == day && j.spec_page().name@ == date_text(
                day.spec_date().year as int,
                day.spec_date().month as int,
                day.spec_date().day as int,
            ) && j.spec_page().journal_day == Some(day) && j.spec_page().journal
                && j.spec_page().format == format && j.spec_page().id.value != 0 && (
            j.spec_page().title matches Some(t) && t@ == journal_title(day, journal_format@)),
    {
        let mut page = match Page::new_journal(day, format) {
            Ok(p) => p,
            Err(e) => {
                return Err(e);
            },
        };
        page.title = Some(format_journal_day(day, journal_format));
        Ok(Journal { page, journal_day: day })
    }

    /// The journal's page.
    pub fn page(&self) -> (res: &Page)
        ensures
            *res == self.spec_page(),
    {
        &self.page
    }

    /// The journal's day.
    pub fn day(&self) -> (res: JournalDay)
        ensures
            res == self.spec_day(),
    {
        self.journal_day
    }

    /// The journal's name (its page's name, `YYYY-MM-DD`).
    pub fn name(&self) -> (res: &str)
        ensures
            res@ == self.spec_page().name@,
    {
        self.page.name.as_str()
    }

    /// The journal of a journal page; fails with `InvalidPageType` when the
    /// page has no day.
    pub fn try_from(page: Page) -> (res: Result<Journal, DomainError>)
        ensures
            match page.journal_day {
                Some(day) => res matches Ok(j) && j.spec_page() == page && j.spec_day() == day,
                None => res matches Err(DomainError::InvalidPageType(m)) && m@
                    == "Page is not a journal"@,
            },
    {
        match page.journal_day {
            Some(day) => Ok(Journal { page, journal_day: day }),
            None => Err(DomainError::InvalidPageType("Page is not a journal".to_owned())),
        }
    }
}

impl std::ops::Deref for Journal {
    type Target = Page;

    /// The journal's page.
    fn deref(&self) -> (res: &Page)
        ensures
            *res == self.spec_page(),
    {
        &self.page
    }
}

impl From<Journal> for Page {
    /// The journal's page.
    fn from(journal: Journal) -> (res: Page) {
        journal.page
    }
}

impl vstd::std_specs::convert::FromSpecImpl<Journal> for Page {
    open spec fn obeys_from_spec() -> bool {
        true
    }

    open spec fn from_spec(journal: Journal) -> Page {
        journal.spec_page()
    }
}

} // verus!
