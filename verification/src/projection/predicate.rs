//! `PropertyPredicate`: declarative conditions over a block's properties.

use crate::entities::block::{props_view, Block};
use crate::entities::template_contract::PropertyKey;
use crate::value_objects::{pv, pv_seq, value_eq, value_text, values_contain, PValue, PropertyValue};
use vstd::prelude::*;

verus! {

/// A condition over a block's properties.
#[derive(Debug, PartialEq)]
pub enum PropertyPredicate {
    /// The property equals `value`.
    Equals { key: PropertyKey, value: PropertyValue },
    /// The property is present (even if empty).
    IsSet { key: PropertyKey },
    /// The property equals one of `values`.
    IsOneOf { key: PropertyKey, values: Vec<PropertyValue> },
    /// The property's text matches the regular expression `pattern`.
    MatchesRegex { key: PropertyKey, pattern: String },
    /// The property is greater than `threshold` (integers or instants).
    GreaterThan { key: PropertyKey, threshold: PropertyValue },
    /// The property is less than `threshold` (integers or instants).
    LessThan { key: PropertyKey, threshold: PropertyValue },
    /// Both hold.
    And(Box<PropertyPredicate>, Box<PropertyPredicate>),
    /// At least one holds.
    Or(Box<PropertyPredicate>, Box<PropertyPredicate>),
    /// The inner predicate does not hold.
    Not(Box<PropertyPredicate>),
}

/// A compiled `regex::Regex`, carried through as an opaque value.
#[verifier::external_type_specification]
#[verifier::external_body]
pub struct ExRegex(regex::Regex);

/// A regular expression compiled from `pattern`.
pub struct CompiledRegex {
    re: regex::Regex,
    pattern: String,
}

impl View for CompiledRegex {
    type V = Seq<char>;

    /// The pattern it was compiled from.
    closed spec fn view(&self) -> Seq<char> {
        self.pattern@
    }
}

/// Whether `regex::Regex::new` accepts `pattern`.
pub uninterp spec fn regex_compiles(pattern: Seq<char>) -> bool;

/// What `regex::Regex::is_match` says of `s`, for the regex compiled from
/// `pattern`.
pub uninterp spec fn regex_matches(pattern: Seq<char>, s: Seq<char>) -> bool;

/// Calls `regex::Regex::new(pattern)`. Whether it succeeds is named by
/// `regex_compiles`; a compiled regex keeps its pattern.
#[verifier::external_body]
fn compile_regex(pattern: &str) -> (res: Option<CompiledRegex>)
    ensures
        res is Some <==> regex_compiles(pattern@),
        res matches Some(r) ==> r@ == pattern@,
{
    match regex::Regex::new(pattern) {
        Ok(re) => Some(CompiledRegex { re, pattern: pattern.to_owned() }),
        Err(_) => None,
    }
}

/// Calls `regex::Regex::is_match`. The result is named by `regex_matches`,
/// applied to the pattern the regex was compiled from.
#[verifier::external_body]
fn regex_is_match(re: &CompiledRegex, s: &str) -> (res: bool)
    ensures
        res == regex_matches(re@, s@),
{
    re.re.is_match(s)
}

/// Whether `a` is greater than `b`: both integers or both instants.
pub open spec fn value_gt(a: PValue, b: PValue) -> bool {
    match (a, b) {
        (PValue::Integer(x), PValue::Integer(y)) => x > y,
        (PValue::Date(x), PValue::Date(y)) => x > y,
        _ => false,
    }
}

/// Whether `a` is less than `b`: both integers or both instants.
pub open spec fn value_lt(a: PValue, b: PValue) -> bool {
    match (a, b) {
        (PValue::Integer(x), PValue::Integer(y)) => x < y,
        (PValue::Date(x), PValue::Date(y)) => x < y,
        _ => false,
    }
}

/// Whether predicate `p` holds of the properties `props`.
pub open spec fn pred_holds(p: PropertyPredicate, props: Map<Seq<char>, PValue>) -> bool
    decreases p,
{
    match p {
        PropertyPredicate::Equals { key, value } => props.contains_key(key@) && props[key@] == pv(
            value,
        ),
        PropertyPredicate::IsSet { key } => props.contains_key(key@),
        PropertyPredicate::IsOneOf { key, values } => props.contains_key(key@) && pv_seq(
            values@,
        ).contains(props[key@]),
        PropertyPredicate::MatchesRegex { key, pattern } => props.contains_key(key@)
            && regex_compiles(pattern@) && regex_matches(pattern@, value_text(props[key@])),
        PropertyPredicate::GreaterThan { key, threshold } => props.contains_key(key@) && value_gt(
            props[key@],
            pv(threshold),
        ),
        PropertyPredicate::LessThan { key, threshold } => props.contains_key(key@) && value_lt(
            props[key@],
            pv(threshold),
        ),
        PropertyPredicate::And(l, r) => pred_holds(*l, props) && pred_holds(*r, props),
        PropertyPredicate::Or(l, r) => pred_holds(*l, props) || pred_holds(*r, props),
        PropertyPredicate::Not(i) => !pred_holds(*i, props),
    }
}

/// Whether `actual` is greater than `threshold`.
pub fn greater_than(actual: Option<&PropertyValue>, threshold: &PropertyValue) -> (res: bool)
    ensures
        res == (actual matches Some(a) && value_gt(pv(*a), pv(*threshold))),
{
    match (actual, threshold) {
        (Some(PropertyValue::Integer(a)), PropertyValue::Integer(b)) => *a > *b,
        (Some(PropertyValue::Date(a)), PropertyValue::Date(b)) => *a > *b,
        _ => false,
    }
}

/// Whether `actual` is less than `threshold`.
pub fn less_than(actual: Option<&PropertyValue>, threshold: &PropertyValue) -> (res: bool)
    ensures
        res == (actual matches Some(a) && value_lt(pv(*a), pv(*threshold))),
{
    match (actual, threshold) {
        (Some(PropertyValue::Integer(a)), PropertyValue::Integer(b)) => *a < *b,
        (Some(PropertyValue::Date(a)), PropertyValue::Date(b)) => *a < *b,
        _ => false,
    }
}

impl PropertyPredicate {
    /// Whether the predicate holds of the block's properties.
    pub fn matches(&self, block: &Block) -> (res: bool)
        requires
            block.properties.wf(),
        ensures
            res == pred_holds(*self, props_view(block.properties)),
        decreases self,
    {
        match self {
            PropertyPredicate::Equals { key, value } => match block.properties.get(key.as_str()) {
                Some(bv) => value_eq(bv, value),
                None => false,
            },
            PropertyPredicate::IsSet { key } => block.properties.contains_key(key.as_str()),
            PropertyPredicate::IsOneOf { key, values } => match block.properties.get(key.as_str()) {
                Some(bv) => values_contain(values, bv),
                None => false,
            },
            PropertyPredicate::MatchesRegex { key, pattern } => match block.properties.get(
                key.as_str(),
            ) {
                Some(bv) => {
                    let s = bv.as_display_string();
                    match compile_regex(pattern.as_str()) {
                        Some(re) => regex_is_match(&re, s.as_str()),
                        None => false,
                    }
                },
                None => false,
            },
            PropertyPredicate::GreaterThan { key, threshold } => greater_than(
                block.properties.get(key.as_str()),
                threshold,
            ),
            PropertyPredicate::LessThan { key, threshold } => less_than(
                block.properties.get(key.as_str()),
                threshold,
            ),
            PropertyPredicate::And(lhs, rhs) => lhs.matches(block) && rhs.matches(block),
            PropertyPredicate::Or(lhs, rhs) => lhs.matches(block) || rhs.matches(block),
            PropertyPredicate::Not(inner) => !inner.matches(block),
        }
    }
}

impl PropertyPredicate {
    /// A copy of this predicate, holding of exactly the same properties.
    pub fn duplicate(&self) -> (res: PropertyPredicate)
        ensures
            forall|props: Map<Seq<char>, PValue>| pred_holds(res, props) == pred_holds(*self, props),
        decreases self,
    {
        let res = match self {
            PropertyPredicate::Equals { key, value } => {
                let k = key.duplicate();
                let v = value.clone();
                let r = PropertyPredicate::Equals { key: k, value: v };
                assert(forall|props: Map<Seq<char>, PValue>| #[trigger] pred_holds(r, props) == pred_holds(*self, props));
                r
            },
            PropertyPredicate::IsSet { key } => {
                let r = PropertyPredicate::IsSet { key: key.duplicate() };
                assert(forall|props: Map<Seq<char>, PValue>| #[trigger] pred_holds(r, props) == pred_holds(*self, props));
                r
            },
            PropertyPredicate::IsOneOf { key, values } => {
                let r = PropertyPredicate::IsOneOf {
                    key: key.duplicate(),
                    values: crate::value_objects::clone_values(values),
                };
                assert(forall|props: Map<Seq<char>, PValue>| #[trigger] pred_holds(r, props) == pred_holds(*self, props));
                r
            },
            PropertyPredicate::MatchesRegex { key, pattern } => {
                let r = PropertyPredicate::MatchesRegex { key: key.duplicate(), pattern: pattern.clone() };
                assert(forall|props: Map<Seq<char>, PValue>| #[trigger] pred_holds(r, props) == pred_holds(*self, props));
                r
            },
            PropertyPredicate::GreaterThan { key, threshold } => {
                let r = PropertyPredicate::GreaterThan { key: key.duplicate(), threshold: threshold.clone() };
                assert(forall|props: Map<Seq<char>, PValue>| #[trigger] pred_holds(r, props) == pred_holds(*self, props));
                r
            },
            PropertyPredicate::LessThan { key, threshold } => {
                let r = PropertyPredicate::LessThan { key: key.duplicate(), threshold: threshold.clone() };
                assert(forall|props: Map<Seq<char>, PValue>| #[trigger] pred_holds(r, props) == pred_holds(*self, props));
                r
            },
            PropertyPredicate::And(l, r0) => {
                let dl = (**l).duplicate();
                let dr = (**r0).duplicate();
                let r = PropertyPredicate::And(Box::new(dl), Box::new(dr));
                assert forall|props: Map<Seq<char>, PValue>| #[trigger] pred_holds(r, props) == pred_holds(*self, props) by {
                    assert(pred_holds(dl, props) == pred_holds(**l, props));
                    assert(pred_holds(dr, props) == pred_holds(**r0, props));
                }
                r
            },
            PropertyPredicate::Or(l, r0) => {
                let dl = (**l).duplicate();
                let dr = (**r0).duplicate();
                let r = PropertyPredicate::Or(Box::new(dl), Box::new(dr));
                assert forall|props: Map<Seq<char>, PValue>| #[trigger] pred_holds(r, props) == pred_holds(*self, props) by {
                    assert(pred_holds(dl, props) == pred_holds(**l, props));
                    assert(pred_holds(dr, props) == pred_holds(**r0, props));
                }
                r
            },
            PropertyPredicate::Not(i) => {
                let di = (**i).duplicate();
                let r = PropertyPredicate::Not(Box::new(di));
                assert forall|props: Map<Seq<char>, PValue>| #[trigger] pred_holds(r, props) == pred_holds(*self, props) by {
                    assert(pred_holds(di, props) == pred_holds(**i, props));
                }
                r
            },
        };
        res
    }
}

impl Clone for PropertyPredicate {
    /// A copy, holding of exactly the same properties.
    fn clone(&self) -> (res: Self)
        ensures
            forall|props: Map<Seq<char>, PValue>| pred_holds(res, props) == pred_holds(*self, props),
    {
        self.duplicate()
    }
}

/// Builds predicates; combining with an empty builder stays empty.
#[derive(Debug)]
pub struct PropertyPredicateBuilder {
    inner: Option<PropertyPredicate>,
}

impl PropertyPredicateBuilder {
    /// The predicate built so far.
    pub closed spec fn view(&self) -> Option<PropertyPredicate> {
        self.inner
    }

    /// `Equals`.
    pub fn equals(key: PropertyKey, value: PropertyValue) -> (res: Self)
        ensures
            res@ == Some(PropertyPredicate::Equals { key, value }),
    {
        PropertyPredicateBuilder { inner: Some(PropertyPredicate::Equals { key, value }) }
    }

    /// `IsSet`.
    pub fn is_set(key: PropertyKey) -> (res: Self)
        ensures
            res@ == Some(PropertyPredicate::IsSet { key }),
    {
        PropertyPredicateBuilder { inner: Some(PropertyPredicate::IsSet { key }) }
    }

    /// `IsOneOf`.
    pub fn is_one_of(key: PropertyKey, values: Vec<PropertyValue>) -> (res: Self)
        ensures
            res@ == Some(PropertyPredicate::IsOneOf { key, values }),
    {
        PropertyPredicateBuilder { inner: Some(PropertyPredicate::IsOneOf { key, values }) }
    }

    /// `MatchesRegex`.
    pub fn matches(key: PropertyKey, pattern: String) -> (res: Self)
        ensures
            res@ == Some(PropertyPredicate::MatchesRegex { key, pattern }),
    {
        PropertyPredicateBuilder { inner: Some(PropertyPredicate::MatchesRegex { key, pattern }) }
    }

    /// `GreaterThan`.
    pub fn gt(key: PropertyKey, threshold: PropertyValue) -> (res: Self)
        ensures
            res@ == Some(PropertyPredicate::GreaterThan { key, threshold }),
    {
        PropertyPredicateBuilder { inner: Some(PropertyPredicate::GreaterThan { key, threshold }) }
    }

    /// `LessThan`.
    pub fn lt(key: PropertyKey, threshold: PropertyValue) -> (res: Self)
        ensures
            res@ == Some(PropertyPredicate::LessThan { key, threshold }),
    {
        PropertyPredicateBuilder { inner: Some(PropertyPredicate::LessThan { key, threshold }) }
    }

    /// The predicate so far `And` `other`.
    pub fn and(self, other: PropertyPredicate) -> (res: Self)
        ensures
            res@ == match self@ {
                Some(p) => Some(PropertyPredicate::And(Box::new(p), Box::new(other))),
                None => None,
            },
    {
        match self.inner {
            Some(inner) => PropertyPredicateBuilder {
                inner: Some(PropertyPredicate::And(Box::new(inner), Box::new(other))),
            },
            None => PropertyPredicateBuilder { inner: None },
        }
    }

    /// The predicate so far `Or` `other`.
    pub fn or(self, other: PropertyPredicate) -> (res: Self)
        ensures
            res@ == match self@ {
                Some(p) => Some(PropertyPredicate::Or(Box::new(p), Box::new(other))),
                None => None,
            },
    {
        match self.inner {
            Some(inner) => PropertyPredicateBuilder {
                inner: Some(PropertyPredicate::Or(Box::new(inner), Box::new(other))),
            },
            None => PropertyPredicateBuilder { inner: None },
        }
    }

    /// `Not` of `predicate`.
    pub fn negate(predicate: PropertyPredicate) -> (res: Self)
        ensures
            res@ == Some(PropertyPredicate::Not(Box::new(predicate))),
    {
        PropertyPredicateBuilder { inner: Some(PropertyPredicate::Not(Box::new(predicate))) }
    }

    /// The predicate built.
    pub fn build(self) -> (res: Option<PropertyPredicate>)
        ensures
            res == self@,
    {
        self.inner
    }
}

impl Default for PropertyPredicateBuilder {
    /// An empty builder.
    fn default() -> (res: Self)
        ensures
            res@ is None,
    {
        PropertyPredicateBuilder { inner: None }
    }
}

/// `LessThan` and `GreaterThan` compare a property with the threshold when
/// both are integers or both are instants: less-than holds exactly when the
/// property's number is below the threshold's, greater-than exactly when it
/// is above. Against a threshold of another kind, or with the property
/// missing, neither holds.
pub proof fn lemma_comparisons(
    key: PropertyKey,
    threshold: PropertyValue,
    props: Map<Seq<char>, PValue>,
    x: int,
    y: int,
)
    ensures
        props.contains_key(key@) && props[key@] == PValue::Integer(x) && pv(threshold) == PValue::Integer(y)
            ==> (pred_holds(PropertyPredicate::LessThan { key, threshold }, props) <==> x < y) && (
        pred_holds(PropertyPredicate::GreaterThan { key, threshold }, props) <==> x > y),
        props.contains_key(key@) && props[key@] == PValue::Date(x) && pv(threshold) == PValue::Date(y)
            ==> (pred_holds(PropertyPredicate::LessThan { key, threshold }, props) <==> x < y) && (
        pred_holds(PropertyPredicate::GreaterThan { key, threshold }, props) <==> x > y),
        !props.contains_key(key@) ==> !pred_holds(PropertyPredicate::LessThan { key, threshold }, props)
            && !pred_holds(PropertyPredicate::GreaterThan { key, threshold }, props),
        props.contains_key(key@) && !(props[key@] is Integer && pv(threshold) is Integer) && !(
        props[key@] is Date && pv(threshold) is Date) ==> !pred_holds(
            PropertyPredicate::LessThan { key, threshold },
            props,
        ) && !pred_holds(PropertyPredicate::GreaterThan { key, threshold }, props),
{
}

/// `Not` flips the outcome, and `And`/`Or` are true exactly when both/one
/// of their sides are.
pub proof fn lemma_combinators(
    l: PropertyPredicate,
    r: PropertyPredicate,
    props: Map<Seq<char>, PValue>,
)
    ensures
        pred_holds(PropertyPredicate::Not(Box::new(PropertyPredicate::Not(Box::new(l)))), props)
            == pred_holds(l, props),
        pred_holds(PropertyPredicate::And(Box::new(l), Box::new(r)), props) == pred_holds(
            PropertyPredicate::And(Box::new(r), Box::new(l)),
            props,
        ),
        pred_holds(PropertyPredicate::Not(Box::new(PropertyPredicate::Or(Box::new(l), Box::new(r)))), props)
            == pred_holds(
            PropertyPredicate::And(
                Box::new(PropertyPredicate::Not(Box::new(l))),
                Box::new(PropertyPredicate::Not(Box::new(r))),
            ),
            props,
        ),
{
    reveal_with_fuel(pred_holds, 3);
}

} // verus!
