//! Case-insensitive property key resolution. The lookup itself is the
//! repository's; this module decides what key to look up and what a missing
//! definition means.

use crate::errors::domain_error::{domain_error_message, DomainError};
use crate::properties::builtin::{builtin_keys, get_builtin_property, is_builtin_def};
use crate::properties::definition::PropertyDefinition;
use crate::text::{concat2, concat3, lowercase_of, trim, trim_seq, to_lowercase};
use vstd::prelude::*;

verus! {

/// The key to look up for user input `key`: trimmed, then lower-cased.
/// Blank input gives `NotFound("property:<key>")` without any lookup.
pub fn resolve_key(key: &str) -> (res: Result<String, DomainError>)
    ensures
        trim_seq(key@).len() == 0 ==> (res matches Err(DomainError::NotFound(m)) && m@
            == "property:"@ + key@),
        trim_seq(key@).len() != 0 ==> (res matches Ok(k) && k@ == lowercase_of(trim_seq(key@))),
{
    let trimmed = trim(key);
    if trimmed.unicode_len() == 0 {
        return Err(DomainError::NotFound(concat2("property:", key)));
    }
    Ok(to_lowercase(trimmed.as_str()))
}

/// What the lookup of `normalized` means: the definition found, or
/// `NotFound("property:<normalized>")`.
pub fn resolve_found(normalized: &str, found: Option<PropertyDefinition>) -> (res: Result<
    PropertyDefinition,
    DomainError,
>)
    ensures
        found matches Some(d) ==> res == Ok::<PropertyDefinition, DomainError>(d),
        found is None ==> (res matches Err(DomainError::NotFound(m)) && m@ == "property:"@
            + normalized@),
{
    match found {
        Some(d) => Ok(d),
        None => Err(DomainError::NotFound(concat2("property:", normalized))),
    }
}

/// The definition for `key`: the stored one if the repository has one,
/// otherwise the built-in one, if any.
pub fn or_builtin(key: &str, stored: Option<PropertyDefinition>) -> (res: Option<PropertyDefinition>)
    ensures
        stored is Some ==> res == stored,
        stored is None ==> (res is Some <==> builtin_keys().contains(key@)),
        stored is None ==> (res matches Some(d) ==> is_builtin_def(d, key@)),
{
    match stored {
        Some(d) => Some(d),
        None => get_builtin_property(key),
    }
}

/// The error reported when looking up the definition of `key` failed with
/// `cause`: `Database("Failed to lookup property '<key>': <cause>")`.
pub fn lookup_failure(key: &str, cause: &DomainError) -> (res: DomainError)
    ensures
        res matches DomainError::Database(m) && m@ == "Failed to lookup property '"@ + key@ + "': "@
            + domain_error_message(*cause),
{
    let c = cause.to_display_string();
    let mut m = concat3("Failed to lookup property '", key, "': ");
    m.append(c.as_str());
    DomainError::Database(m)
}

} // verus!
