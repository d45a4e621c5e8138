//! What is made of a field of a submitted form.

use vstd::prelude::*;
use vstd::string::StringExecFns;
use crate::error::TypeError;

verus! {

/// A field as it was found in a form: absent, present but no text, or a text.
pub enum Field<'a> {
    Absent,
    NoText,
    Text(&'a str),
}

/// The text of a field that must be a text, or why there is none.
pub open spec fn field_text(field: Field, no_text: Seq<char>) -> Result<Seq<char>, Seq<char>> {
    match field {
        Field::Absent => Err("Invalid key"@),
        Field::NoText => Err(no_text),
        Field::Text(text) => Ok(text@),
    }
}

/// What a reader of a field returned, taken by its text.
pub open spec fn text_outcome(outcome: Result<String, TypeError>) -> Result<Seq<char>, Seq<char>> {
    match outcome {
        Ok(text) => Ok(text@),
        Err(e) => Err(e@),
    }
}

/// The text of a field. A field that is absent or no text is an invalid key.
pub fn get_str(field: Field) -> (outcome: Result<String, TypeError>)
    ensures
        text_outcome(outcome) == field_text(field, "Invalid key"@),
{
    match field {
        Field::Text(v) => Ok(String::from_str(v)),
        Field::NoText => Err(TypeError::new("Invalid key")),
        Field::Absent => Err(TypeError::new("Invalid key")),
    }
}

/// The text of a field from which a number is to be read. An absent field is
/// an invalid key; one that is no text cannot be read as one.
pub fn get_number_text(field: Field) -> (outcome: Result<String, TypeError>)
    ensures
        text_outcome(outcome) == field_text(field, "Failed to parse value as str"@),
{
    match field {
        Field::Text(v) => Ok(String::from_str(v)),
        Field::NoText => Err(TypeError::new("Failed to parse value as str")),
        Field::Absent => Err(TypeError::new("Invalid key")),
    }
}

/// The error of a field whose text is not of the form of the value asked
/// for.
pub fn invalid_conversion() -> (error: TypeError)
    ensures
        error@ == "Invalid type conversion"@,
{
    TypeError::new("Invalid type conversion")
}

} // verus!
