//! The email provider's request body:
//! `{"personalizations": [{"to": [{"email": ..}]}], "from": {"email": ..},
//! "subject": .., "content": [{"type": .., "value": ..}]}`.
use vstd::prelude::*;

verus! {

#[derive(Default, Debug, Clone, PartialEq, Eq)]
pub struct SendgridEmailFormat<'a> {
    pub personalizations: Vec<PersonalizationField<'a>>,
    pub from: FromField<'a>,
    pub subject: &'a str,
    pub content: Vec<ContentField<'a>>,
}

#[derive(Default, Debug, Clone, PartialEq, Eq)]
pub struct PersonalizationField<'a> {
    pub to: Vec<ToField<'a>>,
}

#[derive(Default, Debug, Clone, PartialEq, Eq)]
pub struct ToField<'a> {
    pub email: &'a str,
}

#[derive(Default, Debug, Clone, PartialEq, Eq)]
pub struct FromField<'a> {
    pub email: &'a str,
}

#[derive(Default, Debug, Clone, PartialEq, Eq)]
pub struct ContentField<'a> {
    /// Serialised as `type`.
    pub type_field: &'a str,
    pub value: &'a str,
}

} // verus!
