//! `PropertyDefinition`: the schema of a typed property, with key
//! normalization and validation.

use crate::content::mark::{clone_opt, opt_view};
use crate::errors::domain_error::DomainError;
use crate::properties::types::{
    Cardinality, ClosedValue, DerivedSource, MergePolicy, PropertyMutability, PropertyStatus,
    PropertyType, PropertyVisibility, ViewContext,
};
use crate::text::{
    chars_of, decimal, is_ascii_alnum_spec, is_ascii_digit_spec, is_ascii_lower_spec, lowercase_of,
    string_from_chars, to_lowercase, u64_to_string,
};
use crate::value_objects::Uuid;
use vstd::prelude::*;

verus! {

/// The longest a property key may be, in bytes.
pub const MAX_KEY_LENGTH: usize = 32;

/// The pattern a valid key matches.
pub const KEY_PATTERN: &'static str = "^[a-z0-9_]+$";

/// A space or hyphen becomes an underscore; other characters stay.
pub open spec fn key_sep(c: char) -> char {
    if c == ' ' || c == '-' {
        '_'
    } else {
        c
    }
}

/// A character that may stay in a normalized key.
pub open spec fn key_keep(c: char) -> bool {
    is_ascii_alnum_spec(c) || c == '_'
}

/// `s` with separators turned into underscores and every character that
/// then is not an ASCII letter, digit or underscore dropped.
pub open spec fn key_filter(s: Seq<char>) -> Seq<char>
    decreases s.len(),
{
    if s.len() == 0 {
        Seq::empty()
    } else {
        let r = key_filter(s.drop_last());
        if key_keep(key_sep(s.last())) {
            r.push(key_sep(s.last()))
        } else {
            r
        }
    }
}

/// The normalized form of a raw key: lower-cased, separators turned into
/// underscores, other characters outside `[a-z0-9_]` dropped, and cut to
/// `MAX_KEY_LENGTH` characters.
pub open spec fn normalized_key(raw: Seq<char>) -> Seq<char> {
    let f = key_filter(lowercase_of(raw));
    if f.len() <= 32 {
        f
    } else {
        f.take(32)
    }
}

/// A character of a valid key: an ASCII lower-case letter, a digit or `_`.
pub open spec fn valid_key_char(c: char) -> bool {
    is_ascii_lower_spec(c) || is_ascii_digit_spec(c) || c == '_'
}

/// Why a property key is invalid.
#[derive(Debug, Clone, PartialEq)]
pub enum KeyValidationError {
    /// The key is empty.
    Empty,
    /// The key is longer than `max` bytes.
    TooLong { max: usize, actual: usize },
    /// The key has a character outside `[a-z0-9_]`.
    InvalidChars { key: String },
}

/// What std's `Debug` formatting gives for a string: the string between
/// double quotes, with quotes, back-slashes and non-printable characters
/// escaped.
pub uninterp spec fn debug_str_of(s: Seq<char>) -> Seq<char>;

/// Calls `format!("{:?}", s)`. The result is named by `debug_str_of`; for a
/// string of valid key characters, which need no escaping, it is the string
/// between double quotes.
#[verifier::external_body]
pub(crate) fn debug_string_of(s: &str) -> (res: String)
    ensures
        res@ == debug_str_of(s@),
        (forall|i: int| 0 <= i < s@.len() ==> #[trigger] valid_key_char(s@[i])) ==> res@ == "\""@
            + s@ + "\""@,
{
    format!("{:?}", s)
}

/// The message of a key validation error.
pub open spec fn key_error_message(e: KeyValidationError) -> Seq<char> {
    match e {
        KeyValidationError::Empty => "property key must not be empty"@,
        KeyValidationError::TooLong { max, actual } => "property key too long: max "@ + decimal(
            max as nat,
        ) + " chars, got "@ + decimal(actual as nat),
        KeyValidationError::InvalidChars { key } => "property key contains invalid characters: "@
            + debug_str_of(key@),
    }
}

impl KeyValidationError {
    /// The error's message.
    pub fn to_display_string(&self) -> (res: String)
        ensures
            res@ == key_error_message(*self),
    {
        match self {
            KeyValidationError::Empty => "property key must not be empty".to_owned(),
            KeyValidationError::TooLong { max, actual } => {
                let mut r = "property key too long: max ".to_owned();
                let m = u64_to_string(*max as u64);
                r.append(m.as_str());
                r.append(" chars, got ");
                let a = u64_to_string(*actual as u64);
                r.append(a.as_str());
                r
            },
            KeyValidationError::InvalidChars { key } => {
                let mut r = "property key contains invalid characters: ".to_owned();
                let d = debug_string_of(key.as_str());
                r.append(d.as_str());
                r
            },
        }
    }
}

/// Whether some closed value has display text or key `v`.
pub open spec fn closed_set_allows(cv: Seq<ClosedValue>, v: Seq<char>) -> bool {
    exists|i: int| 0 <= i < cv.len() && ((#[trigger] cv[i]).value@ == v || cv[i].db_ident@ == v)
}

/// The schema of a typed property.
#[derive(Debug, Clone, PartialEq)]
pub struct PropertyDefinition {
    /// Identifier.
    pub id: Uuid,
    /// Key, such as `status`.
    pub db_ident: String,
    /// Display title.
    pub title: String,
    /// Value type.
    pub property_type: PropertyType,
    /// How many values it holds.
    pub cardinality: Cardinality,
    /// The allowed values; empty for an open set.
    pub closed_values: Vec<ClosedValue>,
    /// Optional attribute name.
    pub attribute: Option<String>,
    /// Lifecycle state.
    pub status: PropertyStatus,
    /// The key this one is an alias of, if any.
    pub alias_of: Option<String>,
    /// Number of blocks that use it.
    pub block_count: u64,
    /// Number of pages that use it.
    pub page_count: u64,
    /// When it was first seen, in milliseconds since the Unix epoch.
    pub first_seen_at: Option<i64>,
    /// When it was last seen, in milliseconds since the Unix epoch.
    pub last_seen_at: Option<i64>,
    /// Where its value is displayed.
    pub visibility: PropertyVisibility,
    /// Whether users may change it.
    pub mutability: PropertyMutability,
    /// Where a derived value comes from.
    pub derived_from: Option<DerivedSource>,
    /// How patches combine with an existing value.
    pub merge_policy: MergePolicy,
}

/// The column value stored for a visibility: `inline`, `panel`, `never`
/// (for `System`) or `hidden`.
pub open spec fn visibility_column(v: PropertyVisibility) -> Seq<char> {
    match v {
        PropertyVisibility::Inline => "inline"@,
        PropertyVisibility::Panel => "panel"@,
        PropertyVisibility::System => "never"@,
        PropertyVisibility::Hidden => "hidden"@,
    }
}

impl PropertyDefinition {
    /// The column value stored for a visibility.
    pub fn visibility_to_sql_column(v: PropertyVisibility) -> (res: &'static str)
        ensures
            res@ == visibility_column(v),
    {
        match v {
            PropertyVisibility::Inline => "inline",
            PropertyVisibility::Panel => "panel",
            PropertyVisibility::System => "never",
            PropertyVisibility::Hidden => "hidden",
        }
    }

    /// Whether this definition has the defaults of a fresh definition in
    /// every field but identity, key, title and type: one value, open set,
    /// no attribute, active, no alias, unused, never seen, inline, mutable,
    /// not derived, set-if-missing.
    pub open spec fn has_fresh_defaults(&self) -> bool {
        &&& self.cardinality == Cardinality::One
        &&& self.closed_values@.len() == 0
        &&& self.attribute is None
        &&& self.status == PropertyStatus::Active
        &&& self.alias_of is None
        &&& self.block_count == 0
        &&& self.page_count == 0
        &&& self.first_seen_at is None
        &&& self.last_seen_at is None
        &&& self.visibility == PropertyVisibility::Inline
        &&& self.mutability == PropertyMutability::Mutable
        &&& self.derived_from is None
        &&& self.merge_policy == MergePolicy::SetIfMissing
    }

    /// A definition with the given identity, key, title and type, and the
    /// defaults everywhere else.
    pub fn new(id: Uuid, db_ident: &str, title: &str, property_type: PropertyType) -> (res:
        PropertyDefinition)
        ensures
            res.id == id,
            res.db_ident@ == db_ident@,
            res.title@ == title@,
            res.property_type == property_type,
            res.has_fresh_defaults(),
    {
        PropertyDefinition {
            id,
            db_ident: db_ident.to_owned(),
            title: title.to_owned(),
            property_type,
            cardinality: Cardinality::One,
            closed_values: Vec::new(),
            attribute: None,
            status: PropertyStatus::Active,
            alias_of: None,
            block_count: 0,
            page_count: 0,
            first_seen_at: None,
            last_seen_at: None,
            visibility: PropertyVisibility::Inline,
            mutability: PropertyMutability::Mutable,
            derived_from: None,
            merge_policy: MergePolicy::SetIfMissing,
        }
    }

    /// Like `new`, with the key normalized first.
    pub fn new_normalized(id: Uuid, raw_key: &str, title: &str, property_type: PropertyType) -> (res:
        PropertyDefinition)
        ensures
            res.id == id,
            res.db_ident@ == normalized_key(raw_key@),
            res.title@ == title@,
            res.property_type == property_type,
            res.has_fresh_defaults(),
    {
        let key = Self::normalize_key(raw_key);
        Self::new(id, key.as_str(), title, property_type)
    }

    /// Normalizes a raw key: lower-cases it, turns spaces and hyphens into
    /// underscores, drops every other character outside `[a-z0-9_]`, and
    /// keeps at most `MAX_KEY_LENGTH` characters.
    pub fn normalize_key(raw: &str) -> (res: String)
        ensures
            res@ == normalized_key(raw@),
    {
        let lower = to_lowercase(raw);
        let cs = chars_of(lower.as_str());
        let ghost s = cs@;
        let mut out: Vec<char> = Vec::new();
        let mut i: usize = 0;
        while i < cs.len()
            invariant
                s == cs@,
                i <= s.len(),
                out@ == key_filter(s.take(i as int)),
            decreases cs.len() - i,
        {
            proof {
                assert(s.take(i + 1).drop_last() =~= s.take(i as int));
            }
            let c = cs[i];
            let m = if c == ' ' || c == '-' {
                '_'
            } else {
                c
            };
            let keep = (('a' <= m && m <= 'z') || ('A' <= m && m <= 'Z') || ('0' <= m && m <= '9'))
                || m == '_';
            if keep {
                out.push(m);
            }
            i = i + 1;
        }
        assert(s.take(s.len() as int) =~= s);
        if out.len() > MAX_KEY_LENGTH {
            out.truncate(MAX_KEY_LENGTH);
            assert(out@ =~= key_filter(s).take(32));
        }
        string_from_chars(&out)
    }

    /// Checks a key: `Empty` for an empty key, `TooLong` for one over
    /// `MAX_KEY_LENGTH` bytes, `InvalidChars` for one with a character
    /// outside `[a-z0-9_]`, in that order of precedence.
    pub fn validate_key(key: &str) -> (res: Result<(), KeyValidationError>)
        ensures
            key@.len() == 0 ==> res == Err::<(), KeyValidationError>(KeyValidationError::Empty),
            key@.len() != 0 && key.len() > 32 ==> res == Err::<
                (),
                KeyValidationError,
            >(KeyValidationError::TooLong { max: 32, actual: key.len() }),
            key@.len() != 0 && key.len() <= 32 ==> (match res {
                Ok(()) => forall|i: int| 0 <= i < key@.len() ==> valid_key_char(#[trigger] key@[i]),
                Err(KeyValidationError::InvalidChars { key: k }) => k@ == key@ && !(forall|i: int|
                    0 <= i < key@.len() ==> valid_key_char(#[trigger] key@[i])),
                _ => false,
            }),
    {
        if key.is_empty() {
            return Err(KeyValidationError::Empty);
        }
        if key.len() > MAX_KEY_LENGTH {
            return Err(KeyValidationError::TooLong { max: MAX_KEY_LENGTH, actual: key.len() });
        }
        let cs = chars_of(key);
        let mut i: usize = 0;
        while i < cs.len()
            invariant
                cs@ == key@,
                key.len() <= 32,
                key@.len() != 0,
                i <= cs@.len(),
                forall|j: int| 0 <= j < i ==> valid_key_char(#[trigger] cs@[j]),
            decreases cs.len() - i,
        {
            let c = cs[i];
            if !(('a' <= c && c <= 'z') || ('0' <= c && c <= '9') || c == '_') {
                assert(!valid_key_char(key@[i as int]));
                return Err(KeyValidationError::InvalidChars { key: key.to_owned() });
            }
            i = i + 1;
        }
        Ok(())
    }

    /// Whether the property is active.
    pub fn is_active(&self) -> (res: bool)
        ensures
            res == (self.status == PropertyStatus::Active),
    {
        self.status == PropertyStatus::Active
    }

    /// Whether the property redirects to another: merged or an alias.
    pub fn is_redirect(&self) -> (res: bool)
        ensures
            res == (self.status == PropertyStatus::Merged || self.status == PropertyStatus::Alias),
    {
        self.status == PropertyStatus::Merged || self.status == PropertyStatus::Alias
    }

    /// The same definition with another cardinality.
    pub fn with_cardinality(self, cardinality: Cardinality) -> (res: PropertyDefinition)
        ensures
            res == (PropertyDefinition { cardinality, ..self }),
    {
        PropertyDefinition { cardinality, ..self }
    }

    /// The same definition with other allowed values.
    pub fn with_closed_values(self, closed_values: Vec<ClosedValue>) -> (res: PropertyDefinition)
        ensures
            res == (PropertyDefinition { closed_values, ..self }),
    {
        PropertyDefinition { closed_values, ..self }
    }

    /// The same definition with another visibility.
    pub fn with_visibility(self, visibility: PropertyVisibility) -> (res: PropertyDefinition)
        ensures
            res == (PropertyDefinition { visibility, ..self }),
    {
        PropertyDefinition { visibility, ..self }
    }

    /// The same definition with an attribute.
    pub fn with_attribute(self, attribute: &str) -> (res: PropertyDefinition)
        ensures
            opt_view(res.attribute) == Some(attribute@),
            res == (PropertyDefinition { attribute: res.attribute, ..self }),
    {
        PropertyDefinition { attribute: Some(attribute.to_owned()), ..self }
    }

    /// The same definition with another mutability.
    pub fn with_mutability(self, mutability: PropertyMutability) -> (res: PropertyDefinition)
        ensures
            res == (PropertyDefinition { mutability, ..self }),
    {
        PropertyDefinition { mutability, ..self }
    }

    /// The same definition, derived from `source`, and therefore immutable.
    pub fn with_derived_from(self, source: DerivedSource) -> (res: PropertyDefinition)
        ensures
            res == (PropertyDefinition {
                derived_from: Some(source),
                mutability: PropertyMutability::Immutable,
                ..self
            }),
    {
        PropertyDefinition {
            derived_from: Some(source),
            mutability: PropertyMutability::Immutable,
            ..self
        }
    }

    /// The same definition with another merge policy.
    pub fn with_merge_policy(self, policy: MergePolicy) -> (res: PropertyDefinition)
        ensures
            res == (PropertyDefinition { merge_policy: policy, ..self }),
    {
        PropertyDefinition { merge_policy: policy, ..self }
    }

    /// Whether the property can be queried: every visibility but `System`.
    pub fn is_queryable(&self) -> (res: bool)
        ensures
            res == (self.visibility != PropertyVisibility::System),
    {
        self.visibility != PropertyVisibility::System
    }

    /// The invariant every definition keeps: a derived property is
    /// immutable.
    pub open spec fn invariant_holds(&self) -> bool {
        self.derived_from is Some ==> self.mutability == PropertyMutability::Immutable
    }

    /// Checks the invariant; fails with `InvariantViolation` for a derived
    /// property that is mutable.
    pub fn assert_invariants(&self) -> (res: Result<(), DomainError>)
        ensures
            self.invariant_holds() ==> res is Ok,
            !self.invariant_holds() ==> (res matches Err(DomainError::InvariantViolation(m)) && m@
                == "derived property must be immutable"@),
    {
        if self.derived_from.is_some() {
            if self.mutability != PropertyMutability::Immutable {
                return Err(DomainError::InvariantViolation("derived property must be immutable"));
            }
        }
        Ok(())
    }

    /// A definition built from the legacy flags: hidden wins and gives
    /// `Hidden`, otherwise the view context gives the visibility; read-only
    /// gives `Immutable`. `public` and `queryable` no longer carry anything.
    pub fn from_legacy_fields(
        id: Uuid,
        db_ident: &str,
        title: &str,
        property_type: PropertyType,
        view_context: ViewContext,
        public: bool,
        queryable: bool,
        hidden: bool,
        read_only: bool,
    ) -> (res: PropertyDefinition)
        ensures
            res.id == id,
            res.db_ident@ == db_ident@,
            res.title@ == title@,
            res.property_type == property_type,
            res.visibility == (if hidden {
                PropertyVisibility::Hidden
            } else {
                match view_context {
                    ViewContext::Block => PropertyVisibility::Inline,
                    ViewContext::Page => PropertyVisibility::Panel,
                    ViewContext::Never => PropertyVisibility::System,
                }
            }),
            res.mutability == (if read_only {
                PropertyMutability::Immutable
            } else {
                PropertyMutability::Mutable
            }),
            (PropertyDefinition {
                visibility: PropertyVisibility::Inline,
                mutability: PropertyMutability::Mutable,
                ..res
            }).has_fresh_defaults(),
    {
        let visibility = if hidden {
            PropertyVisibility::Hidden
        } else {
            PropertyVisibility::from_view_context(&view_context)
        };
        PropertyDefinition {
            visibility,
            mutability: PropertyMutability::from_read_only(read_only),
            ..Self::new(id, db_ident, title, property_type)
        }
    }

    /// The same definition with another lifecycle status.
    pub fn with_status(self, status: PropertyStatus) -> (res: PropertyDefinition)
        ensures
            res == (PropertyDefinition { status, ..self }),
    {
        PropertyDefinition { status, ..self }
    }

    /// The same definition, marked an alias of `target_key`.
    pub fn with_alias_of(self, target_key: &str) -> (res: PropertyDefinition)
        ensures
            opt_view(res.alias_of) == Some(target_key@),
            res == (PropertyDefinition { alias_of: res.alias_of, ..self }),
    {
        PropertyDefinition { alias_of: Some(target_key.to_owned()), ..self }
    }

    /// The same definition with other usage counts.
    pub fn with_usage(self, block_count: u64, page_count: u64) -> (res: PropertyDefinition)
        ensures
            res == (PropertyDefinition { block_count, page_count, ..self }),
    {
        PropertyDefinition { block_count, page_count, ..self }
    }

    /// The same definition with other first and last sightings.
    pub fn with_seen_at(self, first: Option<i64>, last: Option<i64>) -> (res: PropertyDefinition)
        ensures
            res == (PropertyDefinition { first_seen_at: first, last_seen_at: last, ..self }),
    {
        PropertyDefinition { first_seen_at: first, last_seen_at: last, ..self }
    }

    /// Whether the property has a closed set of values.
    pub fn has_closed_values(&self) -> (res: bool)
        ensures
            res == (self.closed_values@.len() > 0),
    {
        self.closed_values.len() > 0
    }

    /// Whether `value` is allowed: anything for an open set; for a closed
    /// set, the display text or the key of one of its values.
    pub fn is_value_allowed(&self, value: &str) -> (res: bool)
        ensures
            res == (self.closed_values@.len() == 0 || closed_set_allows(self.closed_values@, value@)),
    {
        if self.closed_values.len() == 0 {
            return true;
        }
        let mut i: usize = 0;
        while i < self.closed_values.len()
            invariant
                i <= self.closed_values@.len(),
                forall|j: int|
                    0 <= j < i ==> !((#[trigger] self.closed_values@[j]).value@ == value@
                        || self.closed_values@[j].db_ident@ == value@),
            decreases self.closed_values.len() - i,
        {
            let cv = &self.closed_values[i];
            if crate::text::str_eq(cv.value.as_str(), value) || crate::text::str_eq(
                cv.db_ident.as_str(),
                value,
            ) {
                assert(closed_set_allows(self.closed_values@, value@));
                return true;
            }
            i = i + 1;
        }
        false
    }

    /// A copy of this definition.
    pub fn duplicate(&self) -> (res: PropertyDefinition)
        ensures
            res.id == self.id,
            res.db_ident@ == self.db_ident@,
            res.title@ == self.title@,
            res.property_type == self.property_type,
            res.cardinality == self.cardinality,
            res.closed_values@.len() == self.closed_values@.len(),
            forall|i: int|
                0 <= i < self.closed_values@.len() ==> (#[trigger] res.closed_values@[i]).value@
                    == self.closed_values@[i].value@ && res.closed_values@[i].db_ident@
                    == self.closed_values@[i].db_ident@ && opt_view(res.closed_values@[i].icon)
                    == opt_view(self.closed_values@[i].icon) && res.closed_values@[i].order
                    == self.closed_values@[i].order,
            opt_view(res.attribute) == opt_view(self.attribute),
            res.status == self.status,
            opt_view(res.alias_of) == opt_view(self.alias_of),
            res.block_count == self.block_count,
            res.page_count == self.page_count,
            res.first_seen_at == self.first_seen_at,
            res.last_seen_at == self.last_seen_at,
            res.visibility == self.visibility,
            res.mutability == self.mutability,
            (res.derived_from is Some) == (self.derived_from is Some),
            res.merge_policy == self.merge_policy,
    {
        let mut cvs: Vec<ClosedValue> = Vec::new();
        let mut i: usize = 0;
        while i < self.closed_values.len()
            invariant
                i <= self.closed_values@.len(),
                cvs@.len() == i,
                forall|j: int|
                    0 <= j < i ==> (#[trigger] cvs@[j]).value@ == self.closed_values@[j].value@
                        && cvs@[j].db_ident@ == self.closed_values@[j].db_ident@ && opt_view(
                        cvs@[j].icon,
                    ) == opt_view(self.closed_values@[j].icon) && cvs@[j].order
                        == self.closed_values@[j].order,
            decreases self.closed_values.len() - i,
        {
            cvs.push(self.closed_values[i].duplicate());
            i = i + 1;
        }
        PropertyDefinition {
            id: self.id,
            db_ident: self.db_ident.clone(),
            title: self.title.clone(),
            property_type: self.property_type,
            cardinality: self.cardinality,
            closed_values: cvs,
            attribute: clone_opt(&self.attribute),
            status: self.status,
            alias_of: clone_opt(&self.alias_of),
            block_count: self.block_count,
            page_count: self.page_count,
            first_seen_at: self.first_seen_at,
            last_seen_at: self.last_seen_at,
            visibility: self.visibility,
            mutability: self.mutability,
            derived_from: match &self.derived_from {
                Some(d) => Some(d.duplicate()),
                None => None,
            },
            merge_policy: self.merge_policy,
        }
    }
}

/// Every builder keeps the invariant of a definition that has it, and
/// `with_derived_from` establishes it whatever came before.
pub proof fn lemma_builders_keep_invariant(d: PropertyDefinition, s: DerivedSource)
    ensures
        (PropertyDefinition {
            derived_from: Some(s),
            mutability: PropertyMutability::Immutable,
            ..d
        }).invariant_holds(),
{
}

} // verus!
