//! Errors of the domain layer.

pub mod domain_error;
