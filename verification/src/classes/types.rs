//! `Class`: an entity class, which may extend another.

use crate::content::mark::opt_view;
use crate::value_objects::Uuid;
use vstd::prelude::*;

verus! {

/// An entity class.
#[derive(Debug, Clone, PartialEq)]
pub struct Class {
    /// Identifier.
    pub id: Uuid,
    /// Key, such as `task`.
    pub db_ident: String,
    /// Display title.
    pub title: String,
    /// The class it extends, if any.
    pub extends: Option<Uuid>,
    /// Properties every instance must have.
    pub required_properties: Vec<Uuid>,
    /// Default property values, as JSON text.
    pub default_properties: Vec<(Uuid, String)>,
    /// Optional icon.
    pub icon: Option<String>,
    /// Whether it is built in.
    pub builtin: bool,
    /// Whether a user defined it.
    pub user_defined: bool,
}

impl Class {
    /// A user-defined class extending nothing, with no required or default
    /// properties and no icon.
    pub fn new(id: Uuid, db_ident: &str, title: &str) -> (res: Class)
        ensures
            res.id == id,
            res.db_ident@ == db_ident@,
            res.title@ == title@,
            res.extends is None,
            res.required_properties@.len() == 0,
            res.default_properties@.len() == 0,
            res.icon is None,
            !res.builtin,
            res.user_defined,
    {
        Class {
            id,
            db_ident: db_ident.to_owned(),
            title: title.to_owned(),
            extends: None,
            required_properties: Vec::new(),
            default_properties: Vec::new(),
            icon: None,
            builtin: false,
            user_defined: true,
        }
    }

    /// The same class, extending `parent_id`.
    pub fn with_extends(self, parent_id: Uuid) -> (res: Class)
        ensures
            res == (Class { extends: Some(parent_id), ..self }),
    {
        Class { extends: Some(parent_id), ..self }
    }

    /// The same class with one more required property.
    pub fn with_required_property(self, property_id: Uuid) -> (res: Class)
        ensures
            res.required_properties@ == self.required_properties@.push(property_id),
            res == (Class { required_properties: res.required_properties, ..self }),
    {
        let mut s = self;
        s.required_properties.push(property_id);
        s
    }

    /// The same class with one more default property value.
    pub fn with_default_property(self, property_id: Uuid, default_json: &str) -> (res: Class)
        ensures
            res.default_properties@.len() == self.default_properties@.len() + 1,
            res.default_properties@.drop_last() == self.default_properties@,
            res.default_properties@.last().0 == property_id,
            res.default_properties@.last().1@ == default_json@,
            res == (Class { default_properties: res.default_properties, ..self }),
    {
        let mut s = self;
        s.default_properties.push((property_id, default_json.to_owned()));
        s
    }

    /// The same class with an icon.
    pub fn with_icon(self, icon: &str) -> (res: Class)
        ensures
            opt_view(res.icon) == Some(icon@),
            res == (Class { icon: res.icon, ..self }),
    {
        Class { icon: Some(icon.to_owned()), ..self }
    }

    /// The same class, marked built in (and not user-defined).
    pub fn builtin(self) -> (res: Class)
        ensures
            res == (Class { builtin: true, user_defined: false, ..self }),
    {
        Class { builtin: true, user_defined: false, ..self }
    }

    /// The same class, marked user-defined (and not built in).
    pub fn user_defined(self) -> (res: Class)
        ensures
            res == (Class { builtin: false, user_defined: true, ..self }),
    {
        Class { builtin: false, user_defined: true, ..self }
    }
}

} // verus!
