//! Classification of a field's declared value type into a filterable kind.
//!
//! The classifier never fails: names it does not recognise become
//! [`FilterableType::Opaque`], preserving the original type name verbatim, so
//! that such a field can still carry an exact or substring comparison through
//! its textual representation.

use vstd::prelude::*;

verus! {

/// The filterable kind of a field's declared value type.
#[derive(Debug, PartialEq, Eq)]
pub enum FilterableType {
    /// A recognised text-like type name.
    Text,
    /// A recognised identifier / UUID-like type name.
    Identifier,
    /// Any other type name, kept verbatim.
    Opaque(String),
}

/// Mathematical model of [`FilterableType`]: the opaque name as a character
/// sequence.
pub enum FilterableTypeModel {
    Text,
    Identifier,
    Opaque(Seq<char>),
}

impl View for FilterableType {
    type V = FilterableTypeModel;

    open spec fn view(&self) -> FilterableTypeModel {
        match self {
            FilterableType::Text => FilterableTypeModel::Text,
            FilterableType::Identifier => FilterableTypeModel::Identifier,
            FilterableType::Opaque(name) => FilterableTypeModel::Opaque(name@),
        }
    }
}

impl Clone for FilterableType {
    /// A clone has the same model.
    fn clone(&self) -> (r: Self)
        ensures
            r@ == self@,
    {
        match self {
            FilterableType::Text => FilterableType::Text,
            FilterableType::Identifier => FilterableType::Identifier,
            FilterableType::Opaque(name) => FilterableType::Opaque(name.clone()),
        }
    }
}

/// Whether `name` is one of the recognised text-like type names, in plain or
/// optionality-wrapped form.
pub open spec fn is_text_name(name: Seq<char>) -> bool {
    name == "String"@ || name == "Option<String>"@
}

/// Whether `name` is one of the recognised identifier-like type names, in
/// plain or optionality-wrapped form.
pub open spec fn is_identifier_name(name: Seq<char>) -> bool {
    name == "Uuid"@ || name == "uuid::Uuid"@ || name == "Option<Uuid>"@ || name
        == "Option<uuid::Uuid>"@
}

/// The classification of a declared type name.
pub open spec fn classify(name: Seq<char>) -> FilterableTypeModel {
    if is_text_name(name) {
        FilterableTypeModel::Text
    } else if is_identifier_name(name) {
        FilterableTypeModel::Identifier
    } else {
        FilterableTypeModel::Opaque(name)
    }
}

impl FilterableType {
    /// Classifies a declared type name. Classification always succeeds: an
    /// unrecognised name yields `Opaque` with the name kept verbatim.
    pub fn from_declared(name: &String) -> (t: FilterableType)
        ensures
            t@ == classify(name@),
    {
        if *name == String::from_str("String") || *name == String::from_str("Option<String>") {
            FilterableType::Text
        } else if *name == String::from_str("Uuid") || *name == String::from_str("uuid::Uuid")
            || *name == String::from_str("Option<Uuid>") || *name == String::from_str(
            "Option<uuid::Uuid>",
        ) {
            FilterableType::Identifier
        } else {
            FilterableType::Opaque(name.clone())
        }
    }
}

} // verus!
