//! Template contracts: which properties a template requires, how each is laid
//! out, which are locked against user edits, and the contract's version.
//!
//! A contract is declarative metadata; `validate_application`,
//! `check_locked_mutations` and `check_locked_against_template` are how
//! callers enforce it.

use crate::str_map::StrMap;
use crate::text::{ascii_lower_seq, all_ascii, concat2, concat3, decimal, lowercase_of, string_from_chars, str_eq, to_lowercase, trim, trim_seq, u64_to_string, chars_of};
use crate::value_objects::Uuid;
use vstd::prelude::*;

verus! {

// ── PropertyKey ─────────────────────────────────────────────────────────────

/// `'/'`, `' '` and `'_'` become `'-'`; other characters are kept.
pub open spec fn dash_char(c: char) -> char {
    if c == '/' || c == ' ' || c == '_' {
        '-'
    } else {
        c
    }
}

/// Replaces every separator character with a dash.
pub open spec fn dash_separators(s: Seq<char>) -> Seq<char> {
    s.map_values(|c: char| dash_char(c))
}

/// The normal form of a raw property key: trimmed, lower-cased, with `/`,
/// space and `_` replaced by `-`.
pub open spec fn key_normal_form(raw: Seq<char>) -> Seq<char> {
    dash_separators(lowercase_of(trim_seq(raw)))
}

/// The same normal form, spelled out for ASCII input.
pub open spec fn ascii_key_normal_form(raw: Seq<char>) -> Seq<char> {
    dash_separators(ascii_lower_seq(trim_seq(raw)))
}

fn dash_chars(v: &Vec<char>) -> (res: Vec<char>)
    ensures
        res@ == dash_separators(v@),
{
    let mut out: Vec<char> = Vec::new();
    let mut i: usize = 0;
    while i < v.len()
        invariant
            i <= v@.len(),
            out@ == dash_separators(v@.subrange(0, i as int)),
        decreases v.len() - i,
    {
        let c = v[i];
        let d = if c == '/' || c == ' ' || c == '_' {
            '-'
        } else {
            c
        };
        out.push(d);
        assert(v@.subrange(0, i + 1) =~= v@.subrange(0, i as int).push(c));
        assert(dash_separators(v@.subrange(0, i + 1)) =~= dash_separators(
            v@.subrange(0, i as int),
        ).push(d));
        i = i + 1;
    }
    assert(v@.subrange(0, v@.len() as int) =~= v@);
    out
}

/// Normalizes a raw key.
fn normalize(raw: &str) -> (res: String)
    ensures
        res@ == key_normal_form(raw@),
{
    let t = trim(raw);
    let l = to_lowercase(t.as_str());
    let cs = chars_of(l.as_str());
    let d = dash_chars(&cs);
    string_from_chars(&d)
}

/// A normalized, non-empty property key. Two keys that normalize to the same
/// string compare equal.
#[derive(Debug, Clone, PartialEq, Eq, Hash)]
pub struct PropertyKey(String);

impl PropertyKey {
    /// The key's characters.
    pub closed spec fn view(&self) -> Seq<char> {
        self.0@
    }

    /// Builds a key from its already-normalized text.
    pub(crate) fn from_normalized(s: String) -> (res: PropertyKey)
        ensures
            res@ == s@,
    {
        PropertyKey(s)
    }

    /// Normalizes `raw` into a key; fails with `EmptyPropertyKey` when the
    /// normal form is empty.
    pub fn new(raw: &str) -> (res: Result<PropertyKey, ContractError>)
        ensures
            key_normal_form(raw@).len() == 0 ==> res == Err::<PropertyKey, ContractError>(
                ContractError::EmptyPropertyKey,
            ),
            key_normal_form(raw@).len() > 0 ==> (res matches Ok(k) && k@ == key_normal_form(raw@)),
            all_ascii(raw@) ==> key_normal_form(raw@) == ascii_key_normal_form(raw@),
    {
        let t = trim(raw);
        let l = to_lowercase(t.as_str());
        let cs = chars_of(l.as_str());
        let d = dash_chars(&cs);
        let n = string_from_chars(&d);
        if d.len() == 0 {
            return Err(ContractError::EmptyPropertyKey);
        }
        Ok(PropertyKey(n))
    }

    /// The normalized text.
    pub fn as_str(&self) -> (res: &str)
        ensures
            res@ == self@,
    {
        self.0.as_str()
    }

    /// The normalized text, owned.
    pub fn into_string(self) -> (res: String)
        ensures
            res@ == self@,
    {
        self.0
    }

    /// The normalized text (what `Display` prints).
    pub fn to_string(&self) -> (res: String)
        ensures
            res@ == self@,
    {
        self.0.clone()
    }

    /// A copy of this key.
    pub fn duplicate(&self) -> (res: PropertyKey)
        ensures
            res@ == self@,
    {
        PropertyKey(self.0.clone())
    }

    /// Whether two keys hold the same text.
    pub fn same(&self, other: &PropertyKey) -> (res: bool)
        ensures
            res == (self@ == other@),
    {
        str_eq(self.0.as_str(), other.0.as_str())
    }
}

/// The texts of a sequence of keys.
pub open spec fn key_views(ks: Seq<PropertyKey>) -> Seq<Seq<char>> {
    ks.map_values(|k: PropertyKey| k@)
}

// ── Version ─────────────────────────────────────────────────────────────────

/// Contract version; starts at 1 and is bumped on incompatible changes.
#[derive(Debug, Clone, Copy, PartialEq, Eq, PartialOrd, Ord, Hash, Structural)]
pub struct Version(u32);

impl Version {
    /// The number held.
    pub closed spec fn value(&self) -> nat {
        self.0 as nat
    }

    /// Version 1.
    pub fn new() -> (res: Version)
        ensures
            res.value() == 1,
    {
        Version(1)
    }

    /// The version with the given number.
    pub fn from_u32(v: u32) -> (res: Version)
        ensures
            res.value() == v,
    {
        Version(v)
    }

    /// The next version.
    pub fn bump(self) -> (res: Version)
        requires
            self.value() < u32::MAX,
        ensures
            res.value() == self.value() + 1,
    {
        Version(self.0 + 1)
    }

    /// The number held.
    pub fn as_u32(self) -> (res: u32)
        ensures
            res == self.value(),
    {
        self.0
    }

    /// Whether two versions are equal.
    pub fn same(self, other: Version) -> (res: bool)
        ensures
            res == (self.value() == other.value()),
    {
        self.0 == other.0
    }
}

impl Default for Version {
    /// Version 1.
    fn default() -> (res: Version)
        ensures
            res.value() == 1,
    {
        Version(1)
    }
}

// ── TemplateLayout ──────────────────────────────────────────────────────────

/// Where one property of a template is shown.
#[derive(Debug, Clone, PartialEq, Eq)]
pub enum TemplateLayout {
    /// Shown inline in the block row.
    Inline(PropertyKey),
    /// Shown in the side panel only.
    Panel(PropertyKey),
    /// Cannot be changed by the user.
    Locked(PropertyKey),
}

impl TemplateLayout {
    /// The text of the property this layout applies to.
    pub open spec fn key_view(self) -> Seq<char> {
        match self {
            TemplateLayout::Inline(k) => k@,
            TemplateLayout::Panel(k) => k@,
            TemplateLayout::Locked(k) => k@,
        }
    }

    /// The property this layout applies to.
    pub fn property(&self) -> (res: &PropertyKey)
        ensures
            res@ == self.key_view(),
    {
        match self {
            TemplateLayout::Inline(k) => k,
            TemplateLayout::Panel(k) => k,
            TemplateLayout::Locked(k) => k,
        }
    }

    /// True for `Locked`.
    pub fn is_locked(&self) -> (res: bool)
        ensures
            res == (self is Locked),
    {
        matches!(self, TemplateLayout::Locked(_))
    }

    /// True for `Inline`.
    pub fn is_inline(&self) -> (res: bool)
        ensures
            res == (self is Inline),
    {
        matches!(self, TemplateLayout::Inline(_))
    }

    /// True for `Panel`.
    pub fn is_panel(&self) -> (res: bool)
        ensures
            res == (self is Panel),
    {
        matches!(self, TemplateLayout::Panel(_))
    }

    fn duplicate(&self) -> (res: TemplateLayout)
        ensures
            res.key_view() == self.key_view(),
            (res is Locked) == (self is Locked),
            (res is Inline) == (self is Inline),
            (res is Panel) == (self is Panel),
    {
        match self {
            TemplateLayout::Inline(k) => TemplateLayout::Inline(k.duplicate()),
            TemplateLayout::Panel(k) => TemplateLayout::Panel(k.duplicate()),
            TemplateLayout::Locked(k) => TemplateLayout::Locked(k.duplicate()),
        }
    }
}

/// The property texts of a sequence of layouts.
pub open spec fn layout_keys(ls: Seq<TemplateLayout>) -> Seq<Seq<char>> {
    ls.map_values(|l: TemplateLayout| l.key_view())
}

/// The texts of the `Locked` entries of a layout list, in order.
pub open spec fn locked_keys(ls: Seq<TemplateLayout>) -> Seq<Seq<char>>
    decreases ls.len(),
{
    if ls.len() == 0 {
        Seq::empty()
    } else {
        let rest = locked_keys(ls.drop_last());
        if ls.last() is Locked {
            rest.push(ls.last().key_view())
        } else {
            rest
        }
    }
}

// ── Errors ──────────────────────────────────────────────────────────────────

/// Errors from building or enforcing a contract.
#[derive(Debug, PartialEq)]
pub enum ContractError {
    MissingTemplateId,
    EmptyPropertyKey,
    DuplicateLayoutKey(String),
    RequiredWithoutLayout(String),
    LayoutWithoutRequired(String),
    MissingRequiredProperty(String),
    LockedPropertyMissing(String),
    LockedPropertyChanged { property: String, template_value: String, proposed_value: String },
    LockedPropertyAdded(String),
    VersionMismatch { expected: u32, actual: u32 },
}

/// The message of a contract error.
pub open spec fn contract_error_message(e: ContractError) -> Seq<char> {
    match e {
        ContractError::MissingTemplateId => "template_id is required"@,
        ContractError::EmptyPropertyKey => "property key cannot be empty"@,
        ContractError::DuplicateLayoutKey(k) => "layout declared twice for property '"@ + k@
            + "'"@,
        ContractError::RequiredWithoutLayout(k) => "required property '"@ + k@
            + "' has no layout declaration"@,
        ContractError::LayoutWithoutRequired(k) => "layout declared for property '"@ + k@
            + "' but property is not required"@,
        ContractError::MissingRequiredProperty(k) => "missing required property '"@ + k@ + "'"@,
        ContractError::LockedPropertyMissing(k) => "locked property '"@ + k@
            + "' missing from proposed values"@,
        ContractError::LockedPropertyChanged { property, template_value, proposed_value } =>
            "locked property '"@ + property@ + "' changed from template value '"@
            + template_value@ + "' to '"@ + proposed_value@ + "'"@,
        ContractError::LockedPropertyAdded(k) => "locked property '"@ + k@
            + "' was added but not declared in template values"@,
        ContractError::VersionMismatch { expected, actual } => "version mismatch: expected "@
            + decimal(expected as nat) + ", got "@ + decimal(actual as nat),
    }
}

impl ContractError {
    /// The error's message (what `Display` prints).
    pub fn to_display_string(&self) -> (res: String)
        ensures
            res@ == contract_error_message(*self),
    {
        match self {
            ContractError::MissingTemplateId => owned_str("template_id is required"),
            ContractError::EmptyPropertyKey => owned_str("property key cannot be empty"),
            ContractError::DuplicateLayoutKey(k) => concat3(
                "layout declared twice for property '",
                k.as_str(),
                "'",
            ),
            ContractError::RequiredWithoutLayout(k) => concat3(
                "required property '",
                k.as_str(),
                "' has no layout declaration",
            ),
            ContractError::LayoutWithoutRequired(k) => concat3(
                "layout declared for property '",
                k.as_str(),
                "' but property is not required",
            ),
            ContractError::MissingRequiredProperty(k) => concat3(
                "missing required property '",
                k.as_str(),
                "'",
            ),
            ContractError::LockedPropertyMissing(k) => concat3(
                "locked property '",
                k.as_str(),
                "' missing from proposed values",
            ),
            ContractError::LockedPropertyChanged { property, template_value, proposed_value } => {
                let a = concat3("locked property '", property.as_str(), "' changed from template value '");
                let b = concat3(a.as_str(), template_value.as_str(), "' to '");
                concat3(b.as_str(), proposed_value.as_str(), "'")
            },
            ContractError::LockedPropertyAdded(k) => concat3(
                "locked property '",
                k.as_str(),
                "' was added but not declared in template values",
            ),
            ContractError::VersionMismatch { expected, actual } => {
                let e = u64_to_string(*expected as u64);
                let a = u64_to_string(*actual as u64);
                let x = concat3("version mismatch: expected ", e.as_str(), ", got ");
                concat2(x.as_str(), a.as_str())
            },
        }
    }
}

fn owned_str(s: &str) -> (res: String)
    ensures
        res@ == s@,
{
    s.to_owned()
}

// ── TemplateContract ────────────────────────────────────────────────────────

/// A template's declarative contract.
#[derive(Debug, Clone, PartialEq, Eq)]
pub struct TemplateContract {
    /// The template's id (the template page's id).
    pub template_id: Uuid,
    /// Properties the template requires.
    pub required_properties: Vec<PropertyKey>,
    /// How each property is laid out, in declaration order.
    pub layout: Vec<TemplateLayout>,
    /// Properties the user cannot change: the `Locked` entries of `layout`.
    pub locked_properties: Vec<PropertyKey>,
    /// Contract version.
    pub version: Version,
}

/// The index of the first required key absent from `present`, if any.
pub open spec fn first_absent(keys: Seq<Seq<char>>, present: Map<Seq<char>, String>, j: int) -> bool {
    &&& 0 <= j < keys.len()
    &&& !present.contains_key(keys[j])
    &&& forall|i: int| 0 <= i < j ==> present.contains_key(#[trigger] keys[i])
}

/// A locked key is kept: present in both maps with the same text.
pub open spec fn locked_kept(
    k: Seq<char>,
    proposed: Map<Seq<char>, String>,
    template: Map<Seq<char>, String>,
) -> bool {
    &&& proposed.contains_key(k)
    &&& template.contains_key(k)
    &&& proposed[k]@ == template[k]@
}

/// What `check_locked_against_template` reports for a locked key that is not kept.
pub open spec fn locked_violation(
    k: Seq<char>,
    proposed: Map<Seq<char>, String>,
    template: Map<Seq<char>, String>,
    e: ContractError,
) -> bool {
    if !proposed.contains_key(k) {
        e matches ContractError::LockedPropertyMissing(s) && s@ == k
    } else if !template.contains_key(k) {
        e matches ContractError::LockedPropertyAdded(s) && s@ == k
    } else {
        e matches ContractError::LockedPropertyChanged { property, template_value, proposed_value }
            && property@ == k && template_value@ == template[k]@ && proposed_value@
            == proposed[k]@
    }
}

impl TemplateContract {
    /// The required properties.
    pub fn required_properties(&self) -> (res: &[PropertyKey])
        ensures
            res@ == self.required_properties@,
    {
        self.required_properties.as_slice()
    }

    /// The layout list.
    pub fn layout(&self) -> (res: &[TemplateLayout])
        ensures
            res@ == self.layout@,
    {
        self.layout.as_slice()
    }

    /// The locked properties.
    pub fn locked_properties(&self) -> (res: &[PropertyKey])
        ensures
            res@ == self.locked_properties@,
    {
        self.locked_properties.as_slice()
    }

    /// The contract version.
    pub fn version(&self) -> (res: &Version)
        ensures
            *res == self.version,
    {
        &self.version
    }

    /// The template id.
    pub fn template_id(&self) -> (res: Uuid)
        ensures
            res == self.template_id,
    {
        self.template_id
    }

    /// A builder with no template id, no properties and version 1.
    pub fn builder() -> (res: TemplateContractBuilder)
        ensures
            res.template_id_spec() is None,
            res.required_spec().len() == 0,
            res.layout_spec().len() == 0,
            res.version_spec().value() == 1,
    {
        TemplateContractBuilder::default()
    }

    /// Checks that every required property is present in `properties`;
    /// reports the first one (in declaration order) that is missing.
    pub fn validate_application(&self, properties: &StrMap<String>) -> (res: Result<
        (),
        ContractError,
    >)
        requires
            properties.wf(),
        ensures
            res is Ok <==> (forall|i: int|
                0 <= i < self.required_properties@.len() ==> properties@.contains_key(
                    #[trigger] self.required_properties@[i]@,
                )),
            res is Err ==> exists|j: int|
                first_absent(key_views(self.required_properties@), properties@, j)
                    && (res matches Err(ContractError::MissingRequiredProperty(s)) && s@
                    == self.required_properties@[j]@),
    {
        let mut i: usize = 0;
        while i < self.required_properties.len()
            invariant
                properties.wf(),
                i <= self.required_properties@.len(),
                forall|j: int|
                    0 <= j < i ==> properties@.contains_key(
                        #[trigger] self.required_properties@[j]@,
                    ),
            decreases self.required_properties.len() - i,
        {
            let k = &self.required_properties[i];
            if !properties.contains_key(k.as_str()) {
                let ghost ks = key_views(self.required_properties@);
                assert(first_absent(ks, properties@, i as int)) by {
                    assert forall|j: int| 0 <= j < i implies properties@.contains_key(
                        #[trigger] ks[j],
                    ) by {
                        assert(ks[j] == self.required_properties@[j]@);
                    }
                }
                return Err(ContractError::MissingRequiredProperty(k.to_string()));
            }
            i = i + 1;
        }
        Ok(())
    }

    /// Checks the version first, then the required properties.
    pub fn validate_application_with_version(
        &self,
        properties: &StrMap<String>,
        expected_version: Version,
    ) -> (res: Result<(), ContractError>)
        requires
            properties.wf(),
        ensures
            self.version.value() != expected_version.value() ==> res == Err::<(), ContractError>(
                ContractError::VersionMismatch {
                    expected: expected_version.value() as u32,
                    actual: self.version.value() as u32,
                },
            ),
            self.version.value() == expected_version.value() ==> (res is Ok <==> (forall|i: int|
                0 <= i < self.required_properties@.len() ==> properties@.contains_key(
                    #[trigger] self.required_properties@[i]@,
                ))),
            self.version.value() == expected_version.value() && res is Err ==> exists|j: int|
                first_absent(key_views(self.required_properties@), properties@, j)
                    && (res matches Err(ContractError::MissingRequiredProperty(s)) && s@
                    == self.required_properties@[j]@),
    {
        if !self.version.same(expected_version) {
            return Err(
                ContractError::VersionMismatch {
                    expected: expected_version.as_u32(),
                    actual: self.version.as_u32(),
                },
            );
        }
        self.validate_application(properties)
    }

    /// Checks that every locked property is present in `proposed`; reports
    /// the first one (in order) that is missing.
    pub fn check_locked_mutations(&self, proposed: &StrMap<String>) -> (res: Result<
        (),
        ContractError,
    >)
        requires
            proposed.wf(),
        ensures
            res is Ok <==> (forall|i: int|
                0 <= i < self.locked_properties@.len() ==> proposed@.contains_key(
                    #[trigger] self.locked_properties@[i]@,
                )),
            res is Err ==> exists|j: int|
                first_absent(key_views(self.locked_properties@), proposed@, j)
                    && (res matches Err(ContractError::LockedPropertyMissing(s)) && s@
                    == self.locked_properties@[j]@),
    {
        let mut i: usize = 0;
        while i < self.locked_properties.len()
            invariant
                proposed.wf(),
                i <= self.locked_properties@.len(),
                forall|j: int|
                    0 <= j < i ==> proposed@.contains_key(#[trigger] self.locked_properties@[j]@),
            decreases self.locked_properties.len() - i,
        {
            let k = &self.locked_properties[i];
            if !proposed.contains_key(k.as_str()) {
                let ghost ks = key_views(self.locked_properties@);
                assert(first_absent(ks, proposed@, i as int)) by {
                    assert forall|j: int| 0 <= j < i implies proposed@.contains_key(
                        #[trigger] ks[j],
                    ) by {
                        assert(ks[j] == self.locked_properties@[j]@);
                    }
                }
                return Err(ContractError::LockedPropertyMissing(k.to_string()));
            }
            i = i + 1;
        }
        Ok(())
    }

    /// Checks every locked property against the template's own values: it
    /// must be proposed, be one of the template's values, and keep the
    /// template's text. Reports the first locked property (in order) that
    /// breaks this.
    pub fn check_locked_against_template(
        &self,
        proposed: &StrMap<String>,
        template_values: &StrMap<String>,
    ) -> (res: Result<(), ContractError>)
        requires
            proposed.wf(),
            template_values.wf(),
        ensures
            res is Ok <==> (forall|i: int|
                0 <= i < self.locked_properties@.len() ==> locked_kept(
                    #[trigger] self.locked_properties@[i]@,
                    proposed@,
                    template_values@,
                )),
            res matches Err(e) ==> exists|j: int|
                0 <= j < self.locked_properties@.len() && !locked_kept(
                    self.locked_properties@[j]@,
                    proposed@,
                    template_values@,
                ) && (forall|i: int|
                    0 <= i < j ==> locked_kept(
                        #[trigger] self.locked_properties@[i]@,
                        proposed@,
                        template_values@,
                    )) && locked_violation(
                    self.locked_properties@[j]@,
                    proposed@,
                    template_values@,
                    e,
                ),
    {
        let mut i: usize = 0;
        while i < self.locked_properties.len()
            invariant
                proposed.wf(),
                template_values.wf(),
                i <= self.locked_properties@.len(),
                forall|j: int|
                    0 <= j < i ==> locked_kept(
                        #[trigger] self.locked_properties@[j]@,
                        proposed@,
                        template_values@,
                    ),
            decreases self.locked_properties.len() - i,
        {
            let k = &self.locked_properties[i];
            match (proposed.get(k.as_str()), template_values.get(k.as_str())) {
                (Some(p), Some(t)) => {
                    if !str_eq(p.as_str(), t.as_str()) {
                        return Err(
                            ContractError::LockedPropertyChanged {
                                property: k.to_string(),
                                template_value: t.clone(),
                                proposed_value: p.clone(),
                            },
                        );
                    }
                },
                (Some(_), None) => {
                    return Err(ContractError::LockedPropertyAdded(k.to_string()));
                },
                (None, _) => {
                    return Err(ContractError::LockedPropertyMissing(k.to_string()));
                },
            }
            i = i + 1;
        }
        Ok(())
    }
}

// ── Builder ─────────────────────────────────────────────────────────────────

/// Fluent builder for [`TemplateContract`]. `build` checks that the template
/// id is set, that no property has two layouts, that every required property
/// has a layout and that every layout belongs to a required property.
#[derive(Debug)]
pub struct TemplateContractBuilder {
    template_id: Option<Uuid>,
    required: Vec<PropertyKey>,
    layout: Vec<TemplateLayout>,
    version: Version,
}

impl Default for TemplateContractBuilder {
    /// An empty builder (no id, no properties, version 1).
    fn default() -> (res: TemplateContractBuilder)
        ensures
            res.template_id_spec() is None,
            res.required_spec().len() == 0,
            res.layout_spec().len() == 0,
            res.version_spec().value() == 1,
    {
        TemplateContractBuilder {
            template_id: None,
            required: Vec::new(),
            layout: Vec::new(),
            version: Version::new(),
        }
    }
}

/// `keys[i]` also occurs before position `i`.
pub open spec fn repeats_earlier(keys: Seq<Seq<char>>, i: int) -> bool {
    exists|j: int| 0 <= j < i && keys[j] == keys[i]
}

/// Position `i` holds the first key that repeats an earlier one.
pub open spec fn first_repeat(keys: Seq<Seq<char>>, i: int) -> bool {
    &&& 0 <= i < keys.len()
    &&& repeats_earlier(keys, i)
    &&& forall|k: int| 0 <= k < i ==> !repeats_earlier(keys, k)
}

/// Position `i` holds the first element of `a` that is not in `b`.
pub open spec fn first_not_in(a: Seq<Seq<char>>, b: Seq<Seq<char>>, i: int) -> bool {
    &&& 0 <= i < a.len()
    &&& !b.contains(a[i])
    &&& forall|k: int| 0 <= k < i ==> b.contains(#[trigger] a[k])
}

/// The outcome of `build` on the given parts.
pub open spec fn build_outcome(
    id: Option<Uuid>,
    req: Seq<Seq<char>>,
    lay: Seq<TemplateLayout>,
    version: Version,
    res: Result<TemplateContract, ContractError>,
) -> bool {
    let lk = layout_keys(lay);
    if id is None {
        res == Err::<TemplateContract, ContractError>(ContractError::MissingTemplateId)
    } else if exists|i: int| 0 <= i < lk.len() && repeats_earlier(lk, i) {
        exists|i: int| first_repeat(lk, i) && (res matches Err(ContractError::DuplicateLayoutKey(s)) && s@ == lk[i])
    } else if exists|i: int| 0 <= i < req.len() && !lk.contains(req[i]) {
        exists|i: int| first_not_in(req, lk, i) && (res matches Err(ContractError::RequiredWithoutLayout(s)) && s@ == req[i])
    } else if exists|i: int| 0 <= i < lk.len() && !req.contains(lk[i]) {
        exists|i: int| first_not_in(lk, req, i) && (res matches Err(ContractError::LayoutWithoutRequired(s)) && s@ == lk[i])
    } else {
        res matches Ok(c) && c.template_id == id->0 && key_views(c.required_properties@) == req
            && c.layout@ == lay && key_views(c.locked_properties@) == locked_keys(lay) && c.version == version
    }
}

impl TemplateContractBuilder {
    pub closed spec fn template_id_spec(&self) -> Option<Uuid> {
        self.template_id
    }

    pub closed spec fn required_spec(&self) -> Seq<Seq<char>> {
        key_views(self.required@)
    }

    pub closed spec fn layout_spec(&self) -> Seq<TemplateLayout> {
        self.layout@
    }

    pub closed spec fn version_spec(&self) -> Version {
        self.version
    }

    /// Sets the template id.
    pub fn template_id(self, id: Uuid) -> (res: Self)
        ensures
            res.template_id_spec() == Some(id),
            res.required_spec() == self.required_spec(),
            res.layout_spec() == self.layout_spec(),
            res.version_spec() == self.version_spec(),
    {
        TemplateContractBuilder { template_id: Some(id), ..self }
    }

    /// Adds a required property; a key whose normal form is empty is dropped.
    pub fn required_property(self, key: &str) -> (res: Self)
        ensures
            res.template_id_spec() == self.template_id_spec(),
            key_normal_form(key@).len() > 0 ==> res.required_spec() == self.required_spec().push(
                key_normal_form(key@),
            ),
            key_normal_form(key@).len() == 0 ==> res.required_spec() == self.required_spec(),
            res.layout_spec() == self.layout_spec(),
            res.version_spec() == self.version_spec(),
    {
        let mut s = self;
        let ghost old_req = s.required@;
        if let Ok(k) = PropertyKey::new(key) {
            s.required.push(k);
            assert(key_views(s.required@) =~= key_views(old_req).push(key_normal_form(key@)));
        }
        s
    }

    fn with_layout(self, l: TemplateLayout) -> (res: Self)
        ensures
            res.template_id_spec() == self.template_id_spec(),
            res.required_spec() == self.required_spec(),
            res.layout_spec() == self.layout_spec().push(l),
            res.version_spec() == self.version_spec(),
    {
        let mut s = self;
        s.layout.push(l);
        s
    }

    /// Adds an `Inline` layout; a key whose normal form is empty is dropped.
    pub fn inline_layout(self, key: &str) -> (res: Self)
        ensures
            res.template_id_spec() == self.template_id_spec(),
            res.required_spec() == self.required_spec(),
            key_normal_form(key@).len() > 0 ==> (res.layout_spec().len() == self.layout_spec().len()
                + 1 && res.layout_spec().drop_last() == self.layout_spec()
                && res.layout_spec().last() is Inline && res.layout_spec().last().key_view()
                == key_normal_form(key@)),
            key_normal_form(key@).len() == 0 ==> res.layout_spec() == self.layout_spec(),
            res.version_spec() == self.version_spec(),
    {
        match PropertyKey::new(key) {
            Ok(k) => {
                let r = self.with_layout(TemplateLayout::Inline(k));
                assert(r.layout_spec().drop_last() =~= self.layout_spec());
                r
            },
            Err(_) => self,
        }
    }

    /// Adds a `Panel` layout; a key whose normal form is empty is dropped.
    pub fn panel_layout(self, key: &str) -> (res: Self)
        ensures
            res.template_id_spec() == self.template_id_spec(),
            res.required_spec() == self.required_spec(),
            key_normal_form(key@).len() > 0 ==> (res.layout_spec().len() == self.layout_spec().len()
                + 1 && res.layout_spec().drop_last() == self.layout_spec()
                && res.layout_spec().last() is Panel && res.layout_spec().last().key_view()
                == key_normal_form(key@)),
            key_normal_form(key@).len() == 0 ==> res.layout_spec() == self.layout_spec(),
            res.version_spec() == self.version_spec(),
    {
        match PropertyKey::new(key) {
            Ok(k) => {
                let r = self.with_layout(TemplateLayout::Panel(k));
                assert(r.layout_spec().drop_last() =~= self.layout_spec());
                r
            },
            Err(_) => self,
        }
    }

    /// Adds a `Locked` layout; a key whose normal form is empty is dropped.
    pub fn locked_layout(self, key: &str) -> (res: Self)
        ensures
            res.template_id_spec() == self.template_id_spec(),
            res.required_spec() == self.required_spec(),
            key_normal_form(key@).len() > 0 ==> (res.layout_spec().len() == self.layout_spec().len()
                + 1 && res.layout_spec().drop_last() == self.layout_spec()
                && res.layout_spec().last() is Locked && res.layout_spec().last().key_view()
                == key_normal_form(key@)),
            key_normal_form(key@).len() == 0 ==> res.layout_spec() == self.layout_spec(),
            res.version_spec() == self.version_spec(),
    {
        match PropertyKey::new(key) {
            Ok(k) => {
                let r = self.with_layout(TemplateLayout::Locked(k));
                assert(r.layout_spec().drop_last() =~= self.layout_spec());
                r
            },
            Err(_) => self,
        }
    }

    /// Overrides the version (1 by default).
    pub fn version(self, v: Version) -> (res: Self)
        ensures
            res.template_id_spec() == self.template_id_spec(),
            res.required_spec() == self.required_spec(),
            res.layout_spec() == self.layout_spec(),
            res.version_spec() == v,
    {
        TemplateContractBuilder { version: v, ..self }
    }

    /// Builds the contract, checking in this order: the template id is set;
    /// no layout key repeats (the first repeat is reported); every required
    /// key has a layout; every layout key is required. The locked list is
    /// the `Locked` layouts in order.
    #[verifier::loop_isolation(false)]
    pub fn build(self) -> (res: Result<TemplateContract, ContractError>)
        ensures
            build_outcome(
                self.template_id_spec(),
                self.required_spec(),
                self.layout_spec(),
                self.version_spec(),
                res,
            ),
    {
        let ghost req = key_views(self.required@);
        let ghost lk = layout_keys(self.layout@);
        let template_id = match self.template_id {
            Some(id) => id,
            None => {
                return Err(ContractError::MissingTemplateId);
            },
        };
        // The layout keys, for lookups.
        let mut lkeys: Vec<Vec<char>> = Vec::new();
        let mut i: usize = 0;
        while i < self.layout.len()
            invariant
                i <= self.layout@.len(),
                lk == layout_keys(self.layout@),
                lkeys@.len() == i,
                forall|j: int| 0 <= j < i ==> (#[trigger] lkeys@[j])@ == lk[j],
                forall|k: int| 0 <= k < i ==> !repeats_earlier(lk, k),
            decreases self.layout.len() - i,
        {
            let key = chars_of(self.layout[i].property().as_str());
            let mut j: usize = 0;
            while j < i
                invariant
                    i < self.layout@.len(),
                    j <= i,
                    lkeys@.len() == i,
                    lk == layout_keys(self.layout@),
                    key@ == lk[i as int],
                    forall|m: int| 0 <= m < i ==> (#[trigger] lkeys@[m])@ == lk[m],
                    forall|m: int| 0 <= m < j ==> lk[m] != lk[i as int],
                    forall|k: int| 0 <= k < i ==> !repeats_earlier(lk, k),
                decreases i - j,
            {
                if crate::text::chars_eq(&lkeys[j], &key) {
                    assert(lk[j as int] == lk[i as int]);
                    assert(repeats_earlier(lk, i as int));
                    assert(first_repeat(lk, i as int));
                    assert(lk[i as int] == self.layout@[i as int].key_view());
                    assert(0 <= i < lk.len() && repeats_earlier(lk, i as int));
                    return Err(ContractError::DuplicateLayoutKey(self.layout[i].property().to_string()));
                }
                j = j + 1;
            }
            lkeys.push(key);
            i = i + 1;
        }
        assert(!exists|k: int| 0 <= k < lk.len() && repeats_earlier(lk, k));
        // Every required key must have a layout.
        let mut r: usize = 0;
        while r < self.required.len()
            invariant
                r <= self.required@.len(),
                req == key_views(self.required@),
                lk == layout_keys(self.layout@),
                lkeys@.len() == lk.len(),
                forall|j: int| 0 <= j < lk.len() ==> (#[trigger] lkeys@[j])@ == lk[j],
                forall|k: int| 0 <= k < lk.len() ==> !repeats_earlier(lk, k),
                forall|k: int| 0 <= k < r ==> lk.contains(#[trigger] req[k]),
            decreases self.required.len() - r,
        {
            let key = chars_of(self.required[r].as_str());
            let mut found = false;
            let mut j: usize = 0;
            while j < lkeys.len()
                invariant
                    j <= lkeys@.len(),
                    r < self.required@.len(),
                    req == key_views(self.required@),
                    key@ == req[r as int],
                    lkeys@.len() == lk.len(),
                    forall|m: int| 0 <= m < lk.len() ==> (#[trigger] lkeys@[m])@ == lk[m],
                    found ==> lk.contains(req[r as int]),
                    !found ==> forall|m: int| 0 <= m < j ==> lk[m] != req[r as int],
                decreases lkeys.len() - j,
            {
                if crate::text::chars_eq(&lkeys[j], &key) {
                    found = true;
                }
                j = j + 1;
            }
            if !found {
                assert(!lk.contains(req[r as int]));
                assert(first_not_in(req, lk, r as int));
                assert(req[r as int] == self.required@[r as int]@);
                assert(0 <= r < req.len() && !lk.contains(req[r as int]));
                return Err(ContractError::RequiredWithoutLayout(self.required[r].to_string()));
            }
            r = r + 1;
        }
        // Every layout key must be required.
        let mut l: usize = 0;
        while l < self.layout.len()
            invariant
                l <= self.layout@.len(),
                req == key_views(self.required@),
                lk == layout_keys(self.layout@),
                lkeys@.len() == lk.len(),
                forall|j: int| 0 <= j < lk.len() ==> (#[trigger] lkeys@[j])@ == lk[j],
                forall|k: int| 0 <= k < lk.len() ==> !repeats_earlier(lk, k),
                forall|k: int| 0 <= k < req.len() ==> lk.contains(#[trigger] req[k]),
                forall|k: int| 0 <= k < l ==> req.contains(#[trigger] lk[k]),
            decreases self.layout.len() - l,
        {
            let mut found = false;
            let mut j: usize = 0;
            while j < self.required.len()
                invariant
                    j <= self.required@.len(),
                    l < self.layout@.len(),
                    req == key_views(self.required@),
                    lk == layout_keys(self.layout@),
                    lkeys@.len() == lk.len(),
                    forall|m: int| 0 <= m < lk.len() ==> (#[trigger] lkeys@[m])@ == lk[m],
                    found ==> req.contains(lk[l as int]),
                    !found ==> forall|m: int| 0 <= m < j ==> req[m] != lk[l as int],
                decreases self.required.len() - j,
            {
                let rk = chars_of(self.required[j].as_str());
                assert(req[j as int] == self.required@[j as int]@);
                if crate::text::chars_eq(&lkeys[l], &rk) {
                    found = true;
                }
                j = j + 1;
            }
            if !found {
                assert(!req.contains(lk[l as int]));
                assert(first_not_in(lk, req, l as int));
                assert(lk[l as int] == self.layout@[l as int].key_view());
                assert(0 <= l < lk.len() && !req.contains(lk[l as int]));
                return Err(ContractError::LayoutWithoutRequired(self.layout[l].property().to_string()));
            }
            l = l + 1;
        }
        assert(!exists|k: int| 0 <= k < req.len() && !lk.contains(req[k]));
        assert(!exists|k: int| 0 <= k < lk.len() && !req.contains(lk[k]));
        // The locked properties, in layout order.
        let mut locked: Vec<PropertyKey> = Vec::new();
        let mut m: usize = 0;
        while m < self.layout.len()
            invariant
                m <= self.layout@.len(),
                key_views(locked@) == locked_keys(self.layout@.subrange(0, m as int)),
            decreases self.layout.len() - m,
        {
            let ghost before = self.layout@.subrange(0, m as int);
            assert(self.layout@.subrange(0, m + 1).drop_last() =~= before);
            if let TemplateLayout::Locked(k) = &self.layout[m] {
                let ghost old_locked = locked@;
                locked.push(k.duplicate());
                assert(key_views(locked@) =~= key_views(old_locked).push(k@));
            }
            m = m + 1;
        }
        assert(self.layout@.subrange(0, self.layout@.len() as int) =~= self.layout@);
        Ok(
            TemplateContract {
                template_id,
                required_properties: self.required,
                layout: self.layout,
                locked_properties: locked,
                version: self.version,
            },
        )
    }
}

} // verus!
