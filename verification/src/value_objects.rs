//! Value objects shared by the whole domain: identifiers, property values
//! and the small enums that classify blocks.

use crate::calendar::valid_ymd;
use crate::canonicalization::presets::{date_text, CalendarDate};
use crate::text::digit_char;
use vstd::prelude::*;

verus! {

// ── Uuid ────────────────────────────────────────────────────────────────────

/// A 128-bit universally unique identifier.
#[derive(Debug, Clone, Copy, PartialEq, Eq, Structural, Hash)]
pub struct Uuid {
    pub value: u128,
}

/// The lower-case hexadecimal digit for `n < 16`.
pub open spec fn hex_digit(n: nat) -> char {
    if n < 10 {
        digit_char(n)
    } else {
        ((n - 10 + 97) as u32) as char
    }
}

/// The `i`-th hexadecimal digit of `v`, most significant first (`0 <= i < 32`).
pub open spec fn hex_nibble(v: u128, i: int) -> char {
    hex_digit((((v as nat) / vstd::arithmetic::power::pow(16, (31 - i) as nat) as nat)
        % 16) as nat)
}

/// The 32 lower-case hexadecimal digits of `v`.
pub open spec fn simple_hex(v: u128) -> Seq<char> {
    Seq::new(32, |i: int| hex_nibble(v, i))
}

/// The hyphenated rendering `xxxxxxxx-xxxx-xxxx-xxxx-xxxxxxxxxxxx` of `v`.
pub open spec fn hyphenated(v: u128) -> Seq<char> {
    let s = simple_hex(v);
    s.subrange(0, 8) + seq!['-'] + s.subrange(8, 12) + seq!['-'] + s.subrange(12, 16) + seq![
        '-',
    ] + s.subrange(16, 20) + seq!['-'] + s.subrange(20, 32)
}

/// What `uuid::Uuid::parse_str` gives for a string: the parsed value, or
/// `None` when the string is not a UUID.
pub uninterp spec fn uuid_parse_result(s: Seq<char>) -> Option<u128>;

/// Calls `uuid::Uuid::new_v4` and returns its 128 bits. The value is random;
/// the crate fixes the version nibble to 4 and the variant bits to `10`.
#[verifier::external_body]
fn random_v4_bits() -> (res: u128)
    ensures
        (res >> 76u128) & 0xfu128 == 4,
        (res >> 62u128) & 0x3u128 == 2,
{
    uuid::Uuid::new_v4().as_u128()
}

/// Renders `v` with `uuid::Uuid`'s `Display` (hyphenated lower-case hex).
#[verifier::external_body]
fn uuid_display(v: u128) -> (res: String)
    ensures
        res@ == hyphenated(v),
{
    uuid::Uuid::from_u128(v).to_string()
}

/// Calls `uuid::Uuid::parse_str`. The outcome is named by `uuid_parse_result`;
/// the hyphenated rendering of any value parses back to that value.
#[verifier::external_body]
fn uuid_parse(s: &str) -> (res: Option<u128>)
    ensures
        res == uuid_parse_result(s@),
        forall|v: u128| s@ == hyphenated(v) ==> res == Some(v),
{
    uuid::Uuid::parse_str(s).ok().map(|u| u.as_u128())
}

impl Uuid {
    /// The all-zero identifier.
    pub fn nil() -> (res: Uuid)
        ensures
            res.value == 0,
    {
        Uuid { value: 0 }
    }

    /// The identifier with the given 128 bits.
    pub fn from_u128(value: u128) -> (res: Uuid)
        ensures
            res.value == value,
    {
        Uuid { value }
    }

    /// The 128 bits of this identifier.
    pub fn as_u128(&self) -> (res: u128)
        ensures
            res == self.value,
    {
        self.value
    }

    /// A fresh random (version 4) identifier; never the nil identifier.
    pub fn new_v4() -> (res: Uuid)
        ensures
            (res.value >> 76u128) & 0xfu128 == 4,
            res.value != 0,
    {
        let v = random_v4_bits();
        assert(v != 0) by (bit_vector)
            requires
                (v >> 76u128) & 0xfu128 == 4,
        ;
        Uuid { value: v }
    }

    /// Parses a UUID with `uuid::Uuid::parse_str`; the text `to_string`
    /// gives for an identifier parses back to it.
    pub fn parse_str(s: &str) -> (res: Option<Uuid>)
        ensures
            res == (match uuid_parse_result(s@) {
                Some(v) => Some(Uuid { value: v }),
                None => None,
            }),
            forall|v: u128| s@ == hyphenated(v) ==> res == Some(Uuid { value: v }),
    {
        match uuid_parse(s) {
            Some(v) => Some(Uuid { value: v }),
            None => None,
        }
    }

    /// The hyphenated lower-case rendering of this identifier.
    pub fn to_string(&self) -> (res: String)
        ensures
            res@ == hyphenated(self.value),
    {
        uuid_display(self.value)
    }
}

// ── PropertyValue ───────────────────────────────────────────────────────────

/// A typed property value attached to a block.
#[derive(Debug, PartialEq)]
pub enum PropertyValue {
    /// Free text.
    String(String),
    /// A whole number.
    Integer(i64),
    /// A checkbox value.
    Boolean(bool),
    /// An instant, in milliseconds since the Unix epoch (UTC).
    Date(i64),
    /// A calendar date, as the integer `YYYYMMDD`.
    NaiveDate(i32),
    /// A URL.
    Url(String),
    /// A reference to a block or page.
    Ref(Uuid),
    /// Several values.
    Array(Vec<PropertyValue>),
}

/// The mathematical content of a [`PropertyValue`].
pub enum PValue {
    Str(Seq<char>),
    Integer(int),
    Boolean(bool),
    Date(int),
    NaiveDate(int),
    Url(Seq<char>),
    Ref(u128),
    Array(Seq<PValue>),
}

/// The content of a property value.
pub open spec fn pv(v: PropertyValue) -> PValue
    decreases v, 1nat,
{
    match v {
        PropertyValue::String(s) => PValue::Str(s@),
        PropertyValue::Integer(i) => PValue::Integer(i as int),
        PropertyValue::Boolean(b) => PValue::Boolean(b),
        PropertyValue::Date(d) => PValue::Date(d as int),
        PropertyValue::NaiveDate(d) => PValue::NaiveDate(d as int),
        PropertyValue::Url(s) => PValue::Url(s@),
        PropertyValue::Ref(u) => PValue::Ref(u.value),
        PropertyValue::Array(a) => PValue::Array(pv_seq(a@)),
    }
}

/// The contents of a sequence of property values.
pub open spec fn pv_seq(s: Seq<PropertyValue>) -> Seq<PValue>
    decreases s, 0nat,
{
    if s.len() == 0 {
        Seq::empty()
    } else {
        pv_seq(s.drop_last()).push(pv(s.last()))
    }
}

/// `pv_seq` maps each element through `pv`.
pub proof fn lemma_pv_seq(s: Seq<PropertyValue>)
    ensures
        pv_seq(s).len() == s.len(),
        forall|i: int| 0 <= i < s.len() ==> #[trigger] pv_seq(s)[i] == pv(s[i]),
    decreases s.len(),
{
    if s.len() > 0 {
        lemma_pv_seq(s.drop_last());
        assert forall|i: int| 0 <= i < s.len() implies #[trigger] pv_seq(s)[i] == pv(s[i]) by {
            if i < s.len() - 1 {
                assert(s.drop_last()[i] == s[i]);
            }
        }
    }
}

/// `pv_seq` of an extended sequence.
pub proof fn lemma_pv_seq_push(s: Seq<PropertyValue>, x: PropertyValue)
    ensures
        pv_seq(s.push(x)) == pv_seq(s).push(pv(x)),
{
    assert(s.push(x).drop_last() =~= s);
}

impl PValue {
    /// Name of the value's type.
    pub open spec fn kind_name(self) -> Seq<char> {
        match self {
            PValue::Str(_) => "String"@,
            PValue::Integer(_) => "Integer"@,
            PValue::Boolean(_) => "Boolean"@,
            PValue::Date(_) => "Date"@,
            PValue::NaiveDate(_) => "NaiveDate"@,
            PValue::Url(_) => "Url"@,
            PValue::Ref(_) => "Ref"@,
            PValue::Array(_) => "Array"@,
        }
    }
}

/// Structural equality of two value sequences, through their contents.
fn values_eq(a: &Vec<PropertyValue>, b: &Vec<PropertyValue>) -> (res: bool)
    ensures
        res == (pv_seq(a@) == pv_seq(b@)),
    decreases a@, 0nat,
{
    proof {
        lemma_pv_seq(a@);
        lemma_pv_seq(b@);
    }
    if a.len() != b.len() {
        return false;
    }
    let mut i: usize = 0;
    while i < a.len()
        invariant
            a@.len() == b@.len(),
            i <= a@.len(),
            pv_seq(a@).len() == a@.len(),
            pv_seq(b@).len() == b@.len(),
            forall|j: int| 0 <= j < a@.len() ==> #[trigger] pv_seq(a@)[j] == pv(a@[j]),
            forall|j: int| 0 <= j < b@.len() ==> #[trigger] pv_seq(b@)[j] == pv(b@[j]),
            forall|j: int| 0 <= j < i ==> pv(a@[j]) == pv(b@[j]),
        decreases a.len() - i,
    {
        if !value_eq(&a[i], &b[i]) {
            assert(pv_seq(a@)[i as int] != pv_seq(b@)[i as int]);
            return false;
        }
        i = i + 1;
    }
    assert(pv_seq(a@) =~= pv_seq(b@));
    true
}

/// Structural equality of two property values, through their contents.
pub fn value_eq(a: &PropertyValue, b: &PropertyValue) -> (res: bool)
    ensures
        res == (pv(*a) == pv(*b)),
    decreases *a, 1nat,
{
    match (a, b) {
        (PropertyValue::String(x), PropertyValue::String(y)) => x.eq(y),
        (PropertyValue::Integer(x), PropertyValue::Integer(y)) => *x == *y,
        (PropertyValue::Boolean(x), PropertyValue::Boolean(y)) => *x == *y,
        (PropertyValue::Date(x), PropertyValue::Date(y)) => *x == *y,
        (PropertyValue::NaiveDate(x), PropertyValue::NaiveDate(y)) => *x == *y,
        (PropertyValue::Url(x), PropertyValue::Url(y)) => x.eq(y),
        (PropertyValue::Ref(x), PropertyValue::Ref(y)) => x.value == y.value,
        (PropertyValue::Array(x), PropertyValue::Array(y)) => values_eq(x, y),
        _ => false,
    }
}

/// Whether some element of `items` has the same content as `v`.
pub fn values_contain(items: &Vec<PropertyValue>, v: &PropertyValue) -> (res: bool)
    ensures
        res == pv_seq(items@).contains(pv(*v)),
{
    proof {
        lemma_pv_seq(items@);
    }
    let mut i: usize = 0;
    while i < items.len()
        invariant
            i <= items@.len(),
            pv_seq(items@).len() == items@.len(),
            forall|j: int| 0 <= j < items@.len() ==> #[trigger] pv_seq(items@)[j] == pv(items@[j]),
            forall|j: int| 0 <= j < i ==> pv(items@[j]) != pv(*v),
        decreases items.len() - i,
    {
        if value_eq(&items[i], v) {
            assert(pv_seq(items@)[i as int] == pv(*v));
            return true;
        }
        i = i + 1;
    }
    assert forall|j: int| 0 <= j < pv_seq(items@).len() implies pv_seq(items@)[j] != pv(*v) by {
        assert(pv_seq(items@)[j] == pv(items@[j]));
    }
    false
}

/// A copy of a sequence of values with the same contents.
pub fn clone_values(a: &Vec<PropertyValue>) -> (res: Vec<PropertyValue>)
    ensures
        pv_seq(res@) == pv_seq(a@),
    decreases a@, 0nat,
{
    let mut out: Vec<PropertyValue> = Vec::new();
    let mut i: usize = 0;
    while i < a.len()
        invariant
            i <= a@.len(),
            pv_seq(out@) == pv_seq(a@.subrange(0, i as int)),
        decreases a.len() - i,
    {
        let c = a[i].clone();
        proof {
            lemma_pv_seq_push(out@, c);
            assert(a@.subrange(0, i + 1) =~= a@.subrange(0, i as int).push(a@[i as int]));
            lemma_pv_seq_push(a@.subrange(0, i as int), a@[i as int]);
        }
        out.push(c);
        i = i + 1;
    }
    assert(a@.subrange(0, a@.len() as int) =~= a@);
    out
}

impl Clone for PropertyValue {
    /// A copy with the same content.
    fn clone(&self) -> (res: Self)
        ensures
            pv(res) == pv(*self),
        decreases *self,
    {
        match self {
            PropertyValue::String(s) => PropertyValue::String(s.clone()),
            PropertyValue::Integer(i) => PropertyValue::Integer(*i),
            PropertyValue::Boolean(b) => PropertyValue::Boolean(*b),
            PropertyValue::Date(d) => PropertyValue::Date(*d),
            PropertyValue::NaiveDate(d) => PropertyValue::NaiveDate(*d),
            PropertyValue::Url(s) => PropertyValue::Url(s.clone()),
            PropertyValue::Ref(u) => PropertyValue::Ref(*u),
            PropertyValue::Array(a) => PropertyValue::Array(clone_values(a)),
        }
    }
}

impl PropertyValue {
    /// A text value.
    pub fn string(s: &str) -> (res: PropertyValue)
        ensures
            pv(res) == PValue::Str(s@),
    {
        PropertyValue::String(s.to_owned())
    }

    /// A text value (same as [`PropertyValue::string`]).
    pub fn text(s: &str) -> (res: PropertyValue)
        ensures
            pv(res) == PValue::Str(s@),
    {
        PropertyValue::String(s.to_owned())
    }

    /// An integer value.
    pub fn integer(i: i64) -> (res: PropertyValue)
        ensures
            pv(res) == PValue::Integer(i as int),
    {
        PropertyValue::Integer(i)
    }

    /// A boolean value.
    pub fn boolean(b: bool) -> (res: PropertyValue)
        ensures
            pv(res) == PValue::Boolean(b),
    {
        PropertyValue::Boolean(b)
    }

    /// An instant, in milliseconds since the Unix epoch.
    pub fn date(ms: i64) -> (res: PropertyValue)
        ensures
            pv(res) == PValue::Date(ms as int),
    {
        PropertyValue::Date(ms)
    }

    /// A URL value.
    pub fn url(s: &str) -> (res: PropertyValue)
        ensures
            pv(res) == PValue::Url(s@),
    {
        PropertyValue::Url(s.to_owned())
    }

    /// The name of this value's type.
    pub fn kind_name(&self) -> (res: &'static str)
        ensures
            res@ == pv(*self).kind_name(),
    {
        match self {
            PropertyValue::String(_) => "String",
            PropertyValue::Integer(_) => "Integer",
            PropertyValue::Boolean(_) => "Boolean",
            PropertyValue::Date(_) => "Date",
            PropertyValue::NaiveDate(_) => "NaiveDate",
            PropertyValue::Url(_) => "Url",
            PropertyValue::Ref(_) => "Ref",
            PropertyValue::Array(_) => "Array",
        }
    }
}

// ── Block classification enums ──────────────────────────────────────────────

/// Task marker of a block.
#[derive(Debug, Clone, Copy, PartialEq, Eq, Structural, Hash)]
pub enum TaskMarker {
    Todo,
    Doing,
    Done,
    Later,
    Now,
    Waiting,
    Cancelled,
}

/// Priority of a task.
#[derive(Debug, Clone, Copy, PartialEq, Eq, Structural, Hash)]
pub enum Priority {
    A,
    B,
    C,
}

/// Source format of a block or page.
#[derive(Debug, Clone, Copy, PartialEq, Eq, Structural, Hash)]
pub enum BlockFormat {
    Markdown,
    Org,
}

/// Visual / semantic kind of a block.
#[derive(Debug, Clone, Copy, PartialEq, Eq, Structural, Hash)]
pub enum BlockType {
    Paragraph,
    Heading1,
    Heading2,
    Heading3,
    Code,
    Quote,
}

/// Kind of an embedded asset.
#[derive(Debug, Clone, Copy, PartialEq, Eq, Structural, Hash)]
pub enum AssetType {
    Image,
    Pdf,
    Video,
    Audio,
    Other,
}

/// Display alignment of an embedded asset.
#[derive(Debug, Clone, Copy, PartialEq, Eq, Structural, Hash)]
pub enum Align {
    Left,
    Center,
    Right,
}


/// The text of a value's content: a string or URL as it is, a number, an
/// instant (milliseconds) or a calendar date (`YYYYMMDD`) in decimal, a
/// boolean as `true` or `false`, a reference as its hyphenated UUID, and an
/// array as the texts of its items separated by `, `.
pub open spec fn value_text(v: PValue) -> Seq<char>
    decreases v, 1nat,
{
    match v {
        PValue::Str(s) => s,
        PValue::Integer(i) => crate::text::decimal_signed(i),
        PValue::Boolean(b) => if b {
            "true"@
        } else {
            "false"@
        },
        PValue::Date(d) => crate::text::decimal_signed(d),
        PValue::NaiveDate(d) => crate::text::decimal_signed(d),
        PValue::Url(s) => s,
        PValue::Ref(u) => hyphenated(u),
        PValue::Array(items) => values_text(items),
    }
}

/// The texts of the values, separated by `, `.
pub open spec fn values_text(items: Seq<PValue>) -> Seq<char>
    decreases items, 0nat,
{
    if items.len() == 0 {
        Seq::empty()
    } else if items.len() == 1 {
        value_text(items[0])
    } else {
        values_text(items.drop_last()) + ", "@ + value_text(items.last())
    }
}

impl PropertyValue {
    /// The text of the value (see `value_text`).
    pub fn as_display_string(&self) -> (res: String)
        ensures
            res@ == value_text(pv(*self)),
        decreases *self, 1nat,
    {
        match self {
            PropertyValue::String(s) => s.clone(),
            PropertyValue::Integer(i) => crate::text::i64_to_string(*i),
            PropertyValue::Boolean(b) => if *b {
                "true".to_owned()
            } else {
                "false".to_owned()
            },
            PropertyValue::Date(d) => crate::text::i64_to_string(*d),
            PropertyValue::NaiveDate(d) => crate::text::i64_to_string(*d as i64),
            PropertyValue::Url(s) => s.clone(),
            PropertyValue::Ref(u) => u.to_string(),
            PropertyValue::Array(items) => values_display(items),
        }
    }
}

/// The texts of the values, separated by `, `.
fn values_display(items: &Vec<PropertyValue>) -> (res: String)
    ensures
        res@ == values_text(pv_seq(items@)),
    decreases items@, 0nat,
{
    proof {
        lemma_pv_seq(items@);
    }
    let ghost ps = pv_seq(items@);
    let mut r = String::new();
    let mut i: usize = 0;
    while i < items.len()
        invariant
            ps == pv_seq(items@),
            ps.len() == items@.len(),
            forall|j: int| 0 <= j < items@.len() ==> #[trigger] ps[j] == pv(items@[j]),
            i <= items@.len(),
            r@ == values_text(ps.take(i as int)),
        decreases items.len() - i,
    {
        proof {
            assert(ps.take(i + 1).drop_last() =~= ps.take(i as int));
            assert(ps.take(i + 1).last() == ps[i as int]);
            if i == 0 {
                assert(ps.take(1)[0] == ps[0]);
            }
        }
        if i > 0 {
            r.append(", ");
        }
        let t = items[i].as_display_string();
        r.append(t.as_str());
        i = i + 1;
    }
    assert(ps.take(items@.len() as int) =~= ps);
    r
}

// ── JournalDay ──────────────────────────────────────────────────────────────

/// The day of a journal page: an existing calendar day of a four-digit year
/// (0 to 9999). Its number is `YYYYMMDD`.
#[derive(Debug, Clone, Copy, PartialEq, Eq, Hash, Structural)]
pub struct JournalDay {
    date: CalendarDate,
}

/// Whether `(y, m, d)` can be a journal day: an existing date of a year
/// from 0 to 9999.
pub open spec fn valid_journal_ymd(y: int, m: int, d: int) -> bool {
    valid_ymd(y, m, d) && 0 <= y <= 9999
}

impl JournalDay {
    /// The calendar date of this day.
    pub closed spec fn spec_date(&self) -> CalendarDate {
        self.date
    }

    /// Every journal day is a valid date of a four-digit year.
    #[verifier::type_invariant]
    closed spec fn inv(self) -> bool {
        valid_journal_ymd(self.date.year as int, self.date.month as int, self.date.day as int)
    }

    /// The journal day `year-month-day`; `None` unless that date exists
    /// and the year lies from 0 to 9999.
    pub fn from_ymd(year: i32, month: u32, day: u32) -> (res: Option<JournalDay>)
        ensures
            valid_journal_ymd(year as int, month as int, day as int) ==> (res matches Some(j)
                && j.spec_date() == CalendarDate { year, month, day }),
            !valid_journal_ymd(year as int, month as int, day as int) ==> res is None,
    {
        if year < 0 || year > 9999 {
            return None;
        }
        match CalendarDate::from_ymd(year, month, day) {
            Some(date) => Some(JournalDay { date }),
            None => None,
        }
    }

    /// The year.
    pub fn year(&self) -> (res: i32)
        ensures
            res == self.spec_date().year,
            0 <= res <= 9999,
    {
        proof {
            use_type_invariant(self);
        }
        self.date.year
    }

    /// The month, 1 to 12.
    pub fn month(&self) -> (res: u32)
        ensures
            res == self.spec_date().month,
            1 <= res <= 12,
    {
        proof {
            use_type_invariant(self);
        }
        self.date.month
    }

    /// The day of the month, 1 to 31.
    pub fn day(&self) -> (res: u32)
        ensures
            res == self.spec_date().day,
            1 <= res <= 31,
    {
        proof {
            use_type_invariant(self);
        }
        self.date.day
    }

    /// The number `YYYYMMDD`.
    pub fn as_i32(&self) -> (res: i32)
        ensures
            res == self.spec_date().year * 10000 + self.spec_date().month * 100
                + self.spec_date().day,
    {
        proof {
            use_type_invariant(self);
        }
        self.date.year * 10000 + (self.date.month as i32) * 100 + (self.date.day as i32)
    }

    /// The day as `YYYY-MM-DD`.
    pub fn to_display_string(&self) -> (res: String)
        ensures
            res@ == date_text(
                self.spec_date().year as int,
                self.spec_date().month as int,
                self.spec_date().day as int,
            ),
    {
        proof {
            use_type_invariant(self);
        }
        self.date.to_display_string()
    }
}

} // verus!
