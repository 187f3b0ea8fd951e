//! Validation of property values against their definitions: type,
//! cardinality and closed set. Looking the definition up is the
//! repository's business; these functions take what it found.

use crate::errors::domain_error::DomainError;
use crate::properties::definition::{closed_set_allows, debug_str_of, PropertyDefinition};
use crate::properties::types::{
    cardinality_name, property_type_name, Cardinality, ClosedValue, PropertyType,
};
use crate::value_objects::{pv, PValue, PropertyValue};
use vstd::prelude::*;

verus! {

/// Whether a value of kind `v` fits a property of type `t`.
pub open spec fn type_compatible(t: PropertyType, v: PValue) -> bool {
    match (t, v) {
        (PropertyType::Text, PValue::Str(_)) => true,
        (PropertyType::Number, PValue::Integer(_)) => true,
        (PropertyType::Date, PValue::Date(_)) => true,
        (PropertyType::Date, PValue::NaiveDate(_)) => true,
        (PropertyType::DateTime, PValue::Date(_)) => true,
        (PropertyType::Url, PValue::Url(_)) => true,
        (PropertyType::Url, PValue::Str(_)) => true,
        (PropertyType::Checkbox, PValue::Boolean(_)) => true,
        (PropertyType::Node, PValue::Ref(_)) => true,
        _ => false,
    }
}

/// The kinds of value each property type accepts: text takes strings;
/// numbers take integers; dates take instants and calendar dates; date-times
/// take instants; URLs take URLs and strings; checkboxes take booleans;
/// nodes take references. No type accepts an array.
pub proof fn lemma_accepted_kinds(v: PValue)
    ensures
        type_compatible(PropertyType::Text, v) <==> v is Str,
        type_compatible(PropertyType::Number, v) <==> v is Integer,
        type_compatible(PropertyType::Date, v) <==> (v is Date || v is NaiveDate),
        type_compatible(PropertyType::DateTime, v) <==> v is Date,
        type_compatible(PropertyType::Url, v) <==> (v is Url || v is Str),
        type_compatible(PropertyType::Checkbox, v) <==> v is Boolean,
        type_compatible(PropertyType::Node, v) <==> v is Ref,
        v is Array ==> forall|t: PropertyType| !#[trigger] type_compatible(t, v),
{
}

/// The message of a type mismatch.
pub open spec fn type_mismatch_message(t: PropertyType, v: PValue) -> Seq<char> {
    "Type mismatch: expected "@ + property_type_name(t) + " but got "@ + v.kind_name()
}

/// The message of a cardinality violation.
pub open spec fn cardinality_message(c: Cardinality) -> Seq<char> {
    "Cardinality violation: expected single value but got array (cardinality is "@
        + cardinality_name(c) + ")"@
}

/// The `Debug` rendering of a list of strings: each rendered as `Debug`
/// renders a string, separated by `, `, between brackets.
pub open spec fn debug_list(items: Seq<Seq<char>>) -> Seq<char> {
    "["@ + crate::content::block_segment::join(items.map_values(|s: Seq<char>| debug_str_of(s)), ", "@)
        + "]"@
}

/// The display texts of closed values.
pub open spec fn closed_texts(cv: Seq<ClosedValue>) -> Seq<Seq<char>> {
    cv.map_values(|c: ClosedValue| c.value@)
}

/// The message of a value outside the closed set.
pub open spec fn closed_set_message(v: Seq<char>, cv: Seq<ClosedValue>) -> Seq<char> {
    "Value '"@ + v + "' is not in the closed set: "@ + debug_list(closed_texts(cv))
}

/// Whether `e` is a validation error for property `key` with message `msg`.
pub open spec fn is_validation_error(e: DomainError, key: Seq<char>, msg: Seq<char>) -> bool {
    e matches DomainError::PropertyValidationError { property, error } && property@ == key
        && error@ == msg
}

/// Checks that the value's kind fits the property's type: text takes
/// strings; numbers integers; dates instants and calendar dates; date-times
/// instants; URLs URLs and strings; checkboxes booleans; nodes references.
pub fn validate_type(def: &PropertyDefinition, value: &PropertyValue) -> (res: Result<(), DomainError>)
    ensures
        res is Ok <==> type_compatible(def.property_type, pv(*value)),
        res matches Err(e) ==> is_validation_error(
            e,
            def.db_ident@,
            type_mismatch_message(def.property_type, pv(*value)),
        ),
{
    let compatible = match (&def.property_type, value) {
        (PropertyType::Text, PropertyValue::String(_)) => true,
        (PropertyType::Number, PropertyValue::Integer(_)) => true,
        (PropertyType::Date, PropertyValue::Date(_)) => true,
        (PropertyType::Date, PropertyValue::NaiveDate(_)) => true,
        (PropertyType::DateTime, PropertyValue::Date(_)) => true,
        (PropertyType::Url, PropertyValue::Url(_)) => true,
        (PropertyType::Url, PropertyValue::String(_)) => true,
        (PropertyType::Checkbox, PropertyValue::Boolean(_)) => true,
        (PropertyType::Node, PropertyValue::Ref(_)) => true,
        _ => false,
    };
    if !compatible {
        let mut error = "Type mismatch: expected ".to_owned();
        error.append(def.property_type.as_str());
        error.append(" but got ");
        error.append(value.kind_name());
        return Err(DomainError::PropertyValidationError { property: def.db_ident.clone(), error });
    }
    Ok(())
}

/// Checks cardinality: a single-valued property rejects an array.
pub fn validate_cardinality(def: &PropertyDefinition, value: &PropertyValue) -> (res: Result<
    (),
    DomainError,
>)
    ensures
        res is Ok <==> !(def.cardinality == Cardinality::One && pv(*value) is Array),
        res matches Err(e) ==> is_validation_error(
            e,
            def.db_ident@,
            cardinality_message(def.cardinality),
        ),
{
    match (&def.cardinality, value) {
        (Cardinality::One, PropertyValue::Array(_)) => {
            let mut error =
                "Cardinality violation: expected single value but got array (cardinality is ".to_owned();
            error.append(def.cardinality.as_str());
            error.append(")");
            Err(DomainError::PropertyValidationError { property: def.db_ident.clone(), error })
        },
        _ => Ok(()),
    }
}

/// The `Debug` rendering of the closed values' display texts.
fn closed_texts_debug(cv: &Vec<ClosedValue>) -> (res: String)
    ensures
        res@ == debug_list(closed_texts(cv@)),
{
    let ghost items = closed_texts(cv@).map_values(|s: Seq<char>| debug_str_of(s));
    let mut parts: Vec<String> = Vec::new();
    let mut i: usize = 0;
    while i < cv.len()
        invariant
            i <= cv@.len(),
            items == closed_texts(cv@).map_values(|s: Seq<char>| debug_str_of(s)),
            parts@.len() == i,
            forall|j: int| 0 <= j < i ==> (#[trigger] parts@[j])@ == items[j],
        decreases cv.len() - i,
    {
        parts.push(crate::properties::definition::debug_string_of(cv[i].value.as_str()));
        i = i + 1;
    }
    assert(crate::content::block_segment::strs_view(parts@) =~= items);
    let joined = crate::content::block_segment::join_strs(&parts, ", ");
    let mut r = "[".to_owned();
    r.append(joined.as_str());
    r.append("]");
    r
}

/// Checks the closed set: for a property with closed values, a string
/// value must be the display text or key of one of them. Values of other
/// kinds are not checked.
pub fn validate_closed_set(def: &PropertyDefinition, value: &PropertyValue) -> (res: Result<
    (),
    DomainError,
>)
    ensures
        res is Ok <==> (def.closed_values@.len() == 0 || !(pv(*value) is Str)
            || closed_set_allows(def.closed_values@, pv(*value)->Str_0)),
        res matches Err(e) ==> is_validation_error(
            e,
            def.db_ident@,
            closed_set_message(pv(*value)->Str_0, def.closed_values@),
        ),
{
    if def.closed_values.len() == 0 {
        return Ok(());
    }
    match value {
        PropertyValue::String(s) => {
            if !def.is_value_allowed(s.as_str()) {
                let mut error = "Value '".to_owned();
                error.append(s.as_str());
                error.append("' is not in the closed set: ");
                let list = closed_texts_debug(&def.closed_values);
                error.append(list.as_str());
                return Err(
                    DomainError::PropertyValidationError { property: def.db_ident.clone(), error },
                );
            }
            Ok(())
        },
        _ => Ok(()),
    }
}

/// Validates a value against the definition found for its key: an unknown
/// property (no definition) is accepted; otherwise the type, the
/// cardinality and the closed set are checked, in that order, and the first
/// failure is returned.
pub fn validate_property_with(def: Option<&PropertyDefinition>, value: &PropertyValue) -> (res:
    Result<(), DomainError>)
    ensures
        def is None ==> res is Ok,
        def matches Some(d) ==> (res is Ok <==> (type_compatible(d.property_type, pv(*value)) && !(
        d.cardinality == Cardinality::One && pv(*value) is Array) && (d.closed_values@.len() == 0
            || !(pv(*value) is Str) || closed_set_allows(d.closed_values@, pv(*value)->Str_0)))),
        def matches Some(d) ==> (!type_compatible(d.property_type, pv(*value)) ==> (res matches Err(
            e,
        ) && is_validation_error(e, d.db_ident@, type_mismatch_message(d.property_type, pv(*value))))),
{
    match def {
        None => Ok(()),
        Some(d) => {
            validate_type(d, value)?;
            validate_cardinality(d, value)?;
            validate_closed_set(d, value)?;
            Ok(())
        },
    }
}

} // verus!
