//! `GraphSpace`: metadata of a graph, such as the name shown in the UI.

use crate::errors::domain_error::DomainError;
use vstd::prelude::*;

verus! {

/// Metadata of a graph.
#[derive(Debug, Clone, PartialEq)]
pub struct GraphSpace {
    /// Display name.
    pub name: String,
    /// Description.
    pub description: String,
    /// Version.
    pub version: String,
}

impl Default for GraphSpace {
    /// Named `My Graph`, with no description, version `1.0`.
    fn default() -> (res: Self)
        ensures
            res.name@ == "My Graph"@,
            res.description@.len() == 0,
            res.version@ == "1.0"@,
    {
        GraphSpace { name: "My Graph".to_owned(), description: String::new(), version: "1.0".to_owned() }
    }
}

impl GraphSpace {
    /// Checks the name: `InvalidConfiguration` if it is empty or longer than
    /// 255 bytes in UTF-8.
    pub fn validate(&self) -> (res: Result<(), DomainError>)
        ensures
            self.name@.len() == 0 ==> (res matches Err(DomainError::InvalidConfiguration(m)) && m@
                == "graph name cannot be empty"@),
            self.name@.len() != 0 && (vstd::utf8::encode_utf8(self.name@).len() as usize) > 255 ==> (res matches Err(
                DomainError::InvalidConfiguration(m),
            ) && m@ == "graph name cannot exceed 255 characters"@),
            self.name@.len() != 0 && (vstd::utf8::encode_utf8(self.name@).len() as usize) <= 255 ==> res is Ok,
    {
        if self.name.as_str().is_empty() {
            return Err(DomainError::InvalidConfiguration("graph name cannot be empty".to_owned()));
        }
        if self.name.as_str().len() > 255 {
            return Err(
                DomainError::InvalidConfiguration("graph name cannot exceed 255 characters".to_owned()),
            );
        }
        Ok(())
    }
}

} // verus!
