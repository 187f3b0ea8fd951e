//! Entity classes with inheritance, the built-in classes, and the checks a
//! class puts on blocks.

pub mod builtin_classes;
pub mod types;
pub mod validator;
