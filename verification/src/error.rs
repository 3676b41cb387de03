//! The two ways in which a value fails validation.
use vstd::prelude::*;

verus! {

/// A failed validation. Both variants borrow the value that was rejected.
#[derive(Debug, PartialEq, Eq)]
pub enum Error<'a> {
    /// The value is not of the expected kind; carries the kind's name.
    InvalidType(&'a serde_json::Value, String),
    /// The value is of the expected kind and the predicate rejected it;
    /// carries the predicate's message.
    InvalidValue(&'a serde_json::Value, String),
}

/// `outcome` is a type mismatch on `value` that names `expected`.
pub open spec fn wrong_type(
    outcome: Result<(), Error<'_>>,
    value: &serde_json::Value,
    expected: Seq<char>,
) -> bool {
    outcome matches Err(Error::InvalidType(subject, name)) && *subject == *value && name@
        == expected
}

/// `outcome` is a rejection of `value` with the text `message`.
pub open spec fn rejected(
    outcome: Result<(), Error<'_>>,
    value: &serde_json::Value,
    message: Seq<char>,
) -> bool {
    outcome matches Err(Error::InvalidValue(subject, text)) && *subject == *value && text@
        == message
}

/// Two outcomes say the same: both succeed, or both fail in the same way, on
/// equal values and with the same text.
pub open spec fn agree(first: Result<(), Error<'_>>, second: Result<(), Error<'_>>) -> bool {
    match (first, second) {
        (Ok(()), Ok(())) => true,
        (Err(Error::InvalidType(a, name)), Err(Error::InvalidType(b, other))) => *a == *b
            && name@ == other@,
        (Err(Error::InvalidValue(a, text)), Err(Error::InvalidValue(b, other))) => *a == *b
            && text@ == other@,
        _ => false,
    }
}

} // verus!
