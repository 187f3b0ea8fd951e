//! `UserSettings`: persisted user preferences.

use crate::errors::domain_error::DomainError;
use crate::text::decimal;
use crate::value_objects::BlockFormat;
use vstd::prelude::*;

verus! {

/// User preferences.
#[derive(Debug, Clone, PartialEq)]
pub struct UserSettings {
    /// IANA time zone name, such as `Europe/Madrid`.
    pub timezone: String,
    /// Date format for journal titles, in `strftime` notation.
    pub journal_format: String,
    /// First day of the week, 0 (Sunday) to 6.
    pub start_of_week: u8,
    /// Format of new blocks.
    pub preferred_format: BlockFormat,
}

/// Whether `s` is the name of a time zone that `chrono_tz` knows.
pub uninterp spec fn tz_name_known(s: Seq<char>) -> bool;

/// Whether `s` is one of the zones of `common_timezone_table`.
pub open spec fn listed_timezone(s: Seq<char>) -> bool {
    exists|i: int| 0 <= i < common_timezone_table().len() && #[trigger] common_timezone_table()[i].0 == s
}

/// Calls `s.parse::<chrono_tz::Tz>()` and reports whether it succeeded.
/// The result is named by `tz_name_known`; `chrono_tz` looks the exact name
/// up in its time zone table, which holds every zone of
/// `common_timezone_table`.
#[verifier::external_body]
fn parse_tz(s: &str) -> (res: bool)
    ensures
        res == tz_name_known(s@),
        listed_timezone(s@) ==> res,
{
    s.parse::<chrono_tz::Tz>().is_ok()
}

impl Default for UserSettings {
    /// UTC, journal format `%Y-%m-%d`, weeks from Monday, Markdown.
    fn default() -> (res: Self)
        ensures
            res.timezone@ == "UTC"@,
            res.journal_format@ == "%Y-%m-%d"@,
            res.start_of_week == 1,
            res.preferred_format == BlockFormat::Markdown,
    {
        UserSettings {
            timezone: "UTC".to_owned(),
            journal_format: "%Y-%m-%d".to_owned(),
            start_of_week: 1,
            preferred_format: BlockFormat::Markdown,
        }
    }
}

impl UserSettings {
    /// Checks the settings, in order: an unknown time zone gives
    /// `InvalidTimezone`; a first day of week above 6 or an empty journal
    /// format gives `InvalidConfiguration`.
    pub fn validate(&self) -> (res: Result<(), DomainError>)
        ensures
            !tz_name_known(self.timezone@) ==> (res matches Err(DomainError::InvalidTimezone(t)) && t@
                == self.timezone@),
            tz_name_known(self.timezone@) && self.start_of_week > 6 ==> (res matches Err(
                DomainError::InvalidConfiguration(m),
            ) && m@ == "start_of_week must be 0-6, got "@ + decimal(self.start_of_week as nat)),
            tz_name_known(self.timezone@) && self.start_of_week <= 6 && self.journal_format@.len()
                == 0 ==> (res matches Err(DomainError::InvalidConfiguration(m)) && m@
                == "journal_format cannot be empty"@),
            tz_name_known(self.timezone@) && self.start_of_week <= 6 && self.journal_format@.len()
                != 0 ==> res is Ok,
            listed_timezone(self.timezone@) ==> tz_name_known(self.timezone@),
    {
        if !parse_tz(self.timezone.as_str()) {
            return Err(DomainError::InvalidTimezone(self.timezone.clone()));
        }
        if self.start_of_week > 6 {
            let mut m = "start_of_week must be 0-6, got ".to_owned();
            let d = crate::text::u64_to_string(self.start_of_week as u64);
            m.append(d.as_str());
            return Err(DomainError::InvalidConfiguration(m));
        }
        if self.journal_format.as_str().is_empty() {
            return Err(DomainError::InvalidConfiguration("journal_format cannot be empty".to_owned()));
        }
        Ok(())
    }
}

/// Time zones offered in the settings, with their labels.
pub open spec fn common_timezone_table() -> Seq<(Seq<char>, Seq<char>)> {
    seq![
        ("UTC"@, "UTC (Coordinated Universal Time)"@),
        ("America/Mexico_City"@, "Mexico City (UTC-6)"@),
        ("America/New_York"@, "New York (UTC-5)"@),
        ("America/Chicago"@, "Chicago (UTC-6)"@),
        ("America/Denver"@, "Denver (UTC-7)"@),
        ("America/Los_Angeles"@, "Los Angeles (UTC-8)"@),
        ("America/Toronto"@, "Toronto (UTC-5)"@),
        ("America/Sao_Paulo"@, "São Paulo (UTC-3)"@),
        ("Europe/London"@, "London (UTC+0)"@),
        ("Europe/Paris"@, "Paris (UTC+1)"@),
        ("Europe/Berlin"@, "Berlin (UTC+1)"@),
        ("Europe/Madrid"@, "Madrid (UTC+1)"@),
        ("Europe/Rome"@, "Rome (UTC+1)"@),
        ("Europe/Amsterdam"@, "Amsterdam (UTC+1)"@),
        ("Europe/Moscow"@, "Moscow (UTC+3)"@),
        ("Asia/Dubai"@, "Dubai (UTC+4)"@),
        ("Asia/Kolkata"@, "Mumbai/Delhi (UTC+5:30)"@),
        ("Asia/Bangkok"@, "Bangkok (UTC+7)"@),
        ("Asia/Shanghai"@, "Shanghai (UTC+8)"@),
        ("Asia/Hong_Kong"@, "Hong Kong (UTC+8)"@),
        ("Asia/Singapore"@, "Singapore (UTC+8)"@),
        ("Asia/Tokyo"@, "Tokyo (UTC+9)"@),
        ("Asia/Seoul"@, "Seoul (UTC+9)"@),
        ("Australia/Sydney"@, "Sydney (UTC+10)"@),
        ("Australia/Melbourne"@, "Melbourne (UTC+10)"@),
        ("Pacific/Auckland"@, "Auckland (UTC+12)"@),
    ]
}

impl UserSettings {
    /// Time zones offered in the settings, as `(name, label)` pairs.
    pub fn common_timezones() -> (res: Vec<(&'static str, &'static str)>)
        ensures
            res@.len() == common_timezone_table().len(),
            forall|i: int|
                0 <= i < res@.len() ==> (#[trigger] res@[i]).0@ == common_timezone_table()[i].0 && res@[i].1@
                    == common_timezone_table()[i].1,
    {
        let mut v: Vec<(&'static str, &'static str)> = Vec::new();
        v.push(("UTC", "UTC (Coordinated Universal Time)"));
        v.push(("America/Mexico_City", "Mexico City (UTC-6)"));
        v.push(("America/New_York", "New York (UTC-5)"));
        v.push(("America/Chicago", "Chicago (UTC-6)"));
        v.push(("America/Denver", "Denver (UTC-7)"));
        v.push(("America/Los_Angeles", "Los Angeles (UTC-8)"));
        v.push(("America/Toronto", "Toronto (UTC-5)"));
        v.push(("America/Sao_Paulo", "São Paulo (UTC-3)"));
        v.push(("Europe/London", "London (UTC+0)"));
        v.push(("Europe/Paris", "Paris (UTC+1)"));
        v.push(("Europe/Berlin", "Berlin (UTC+1)"));
        v.push(("Europe/Madrid", "Madrid (UTC+1)"));
        v.push(("Europe/Rome", "Rome (UTC+1)"));
        v.push(("Europe/Amsterdam", "Amsterdam (UTC+1)"));
        v.push(("Europe/Moscow", "Moscow (UTC+3)"));
        v.push(("Asia/Dubai", "Dubai (UTC+4)"));
        v.push(("Asia/Kolkata", "Mumbai/Delhi (UTC+5:30)"));
        v.push(("Asia/Bangkok", "Bangkok (UTC+7)"));
        v.push(("Asia/Shanghai", "Shanghai (UTC+8)"));
        v.push(("Asia/Hong_Kong", "Hong Kong (UTC+8)"));
        v.push(("Asia/Singapore", "Singapore (UTC+8)"));
        v.push(("Asia/Tokyo", "Tokyo (UTC+9)"));
        v.push(("Asia/Seoul", "Seoul (UTC+9)"));
        v.push(("Australia/Sydney", "Sydney (UTC+10)"));
        v.push(("Australia/Melbourne", "Melbourne (UTC+10)"));
        v.push(("Pacific/Auckland", "Auckland (UTC+12)"));
        v
    }
}

/// Date formats offered in the settings, with their labels.
pub open spec fn common_date_format_table() -> Seq<(Seq<char>, Seq<char>)> {
    seq![
        ("%Y-%m-%d"@, "2026-05-14 (ISO 8601)"@),
        ("%d/%m/%Y"@, "14/05/2026 (Day/Month/Year)"@),
        ("%m/%d/%Y"@, "05/14/2026 (Month/Day/Year)"@),
        ("%B %d, %Y"@, "May 14, 2026 (Full month name)"@),
        ("%b %d, %Y"@, "May 14, 2026 (Short month name)"@),
        ("%Y/%m/%d"@, "2026/05/14 (Year/Month/Day)"@),
    ]
}

impl UserSettings {
    /// Date formats offered in the settings, as `(format, label)` pairs.
    pub fn common_date_formats() -> (res: Vec<(&'static str, &'static str)>)
        ensures
            res@.len() == common_date_format_table().len(),
            forall|i: int|
                0 <= i < res@.len() ==> (#[trigger] res@[i]).0@ == common_date_format_table()[i].0 && res@[i].1@
                    == common_date_format_table()[i].1,
    {
        let mut v: Vec<(&'static str, &'static str)> = Vec::new();
        v.push(("%Y-%m-%d", "2026-05-14 (ISO 8601)"));
        v.push(("%d/%m/%Y", "14/05/2026 (Day/Month/Year)"));
        v.push(("%m/%d/%Y", "05/14/2026 (Month/Day/Year)"));
        v.push(("%B %d, %Y", "May 14, 2026 (Full month name)"));
        v.push(("%b %d, %Y", "May 14, 2026 (Short month name)"));
        v.push(("%Y/%m/%d", "2026/05/14 (Year/Month/Day)"));
        v
    }
}

} // verus!
