//! Property values, as they come from and go to a pipeline.

use vstd::prelude::*;

use crate::text::opt_text;

verus! {

/// The value of a property.
#[derive(Debug)]
pub enum PropertyValue {
    Text(Option<String>),
    Flag(bool),
    Number(u64),
}

/// The value of a property, as plain mathematics.
#[verifier::ext_equal]
pub enum ValueModel {
    Text(Option<Seq<char>>),
    Flag(bool),
    Number(u64),
}

impl View for PropertyValue {
    type V = ValueModel;

    open spec fn view(&self) -> ValueModel {
        match self {
            PropertyValue::Text(text) => ValueModel::Text(opt_text(*text)),
            PropertyValue::Flag(flag) => ValueModel::Flag(*flag),
            PropertyValue::Number(number) => ValueModel::Number(*number),
        }
    }
}

/// A value says what it holds.
pub proof fn law_values_show_their_fields(text: String, flag: bool, number: u64)
    ensures
        PropertyValue::Text(Some(text))@ == ValueModel::Text(Some(text@)),
        PropertyValue::Text(None)@ == ValueModel::Text(None),
        PropertyValue::Flag(flag)@ == ValueModel::Flag(flag),
        PropertyValue::Number(number)@ == ValueModel::Number(number),
{
}

} // verus!
