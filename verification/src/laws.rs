//! What holds of every scalar validator, whatever the kind and the value.
use crate::error::{agree, rejected, wrong_type, Error};
use crate::validator::Validator;
use crate::validators::primitive::{judged, rule, PrimitiveValidator};
use crate::value::{content, Content, Scalar};
use serde_json::Value;
use vstd::prelude::*;

verus! {

/// The predicate accepts whatever it is asked.
pub open spec fn always_accepts<T, F: Fn(&T) -> Result<(), String>>(predicate: F) -> bool {
    forall|native: T, answer: Result<(), String>| #[trigger]
        call_ensures(predicate, (&native,), answer) ==> answer is Ok
}

/// The predicate rejects whatever it is asked, with the text `message`.
pub open spec fn always_rejects<T, F: Fn(&T) -> Result<(), String>>(
    predicate: F,
    message: Seq<char>,
) -> bool {
    forall|native: T, answer: Result<(), String>| #[trigger]
        call_ensures(predicate, (&native,), answer) ==> (answer matches Err(text) && text@
            == message)
}

/// The predicate's answer depends on nothing but the content that it is
/// asked about: on two natives of one content it gives one answer.
pub open spec fn steady<T: Scalar, F: Fn(&T) -> Result<(), String>>(predicate: F) -> bool {
    forall|held: Content, first: T, second: T, a: Result<(), String>, b: Result<(), String>|
        (#[trigger] T::holds(held, first)) && T::holds(held, second) && #[trigger] call_ensures(
            predicate,
            (&first,),
            a,
        ) && #[trigger] call_ensures(predicate, (&second,), b) ==> match (a, b) {
            (Ok(_), Ok(_)) => true,
            (Err(text), Err(other)) => text@ == other@,
            _ => false,
        }
}

/// A value of another kind is reported as a type mismatch that names the
/// kind, whatever the predicate would have said.
pub proof fn lemma_other_kind_is_type_mismatch<T: Scalar, F: Fn(&T) -> Result<(), String>>(
    predicate: F,
    value: &Value,
    outcome: Result<(), Error<'_>>,
)
    requires
        rule::<T, F>(predicate, value, outcome),
        !T::fits(content(*value)),
    ensures
        wrong_type(outcome, value, T::label()),
{
}

/// A value of the kind passes under a predicate that accepts everything.
pub proof fn lemma_accepting_predicate_passes<T: Scalar, F: Fn(&T) -> Result<(), String>>(
    predicate: F,
    value: &Value,
    outcome: Result<(), Error<'_>>,
)
    requires
        rule::<T, F>(predicate, value, outcome),
        T::fits(content(*value)),
        always_accepts::<T, F>(predicate),
    ensures
        outcome is Ok,
{
}

/// A value of the kind is rejected with the predicate's own message, as it
/// is, under a predicate that rejects everything with that message.
pub proof fn lemma_rejecting_predicate_fails<T: Scalar, F: Fn(&T) -> Result<(), String>>(
    predicate: F,
    message: Seq<char>,
    value: &Value,
    outcome: Result<(), Error<'_>>,
)
    requires
        rule::<T, F>(predicate, value, outcome),
        T::fits(content(*value)),
        always_rejects::<T, F>(predicate, message),
    ensures
        rejected(outcome, value, message),
{
}

/// A negative integer is no `u64`: it is a type mismatch, never converted.
pub proof fn lemma_negative_is_no_u64<F: Fn(&u64) -> Result<(), String>>(
    predicate: F,
    value: &Value,
    outcome: Result<(), Error<'_>>,
)
    requires
        rule::<u64, F>(predicate, value, outcome),
        content(*value) matches Content::Integer(n) && n < 0,
    ensures
        wrong_type(outcome, value, "u64"@),
{
}

/// A number stored in floating point is no `i64`.
pub proof fn lemma_float_is_no_i64<F: Fn(&i64) -> Result<(), String>>(
    predicate: F,
    value: &Value,
    outcome: Result<(), Error<'_>>,
)
    requires
        rule::<i64, F>(predicate, value, outcome),
        content(*value) is Float,
    ensures
        wrong_type(outcome, value, "i64"@),
{
}

/// A number stored in floating point is no `u64`.
pub proof fn lemma_float_is_no_u64<F: Fn(&u64) -> Result<(), String>>(
    predicate: F,
    value: &Value,
    outcome: Result<(), Error<'_>>,
)
    requires
        rule::<u64, F>(predicate, value, outcome),
        content(*value) is Float,
    ensures
        wrong_type(outcome, value, "u64"@),
{
}

/// An integer beyond `i64::MAX` is no `i64`, though it is a `u64`.
pub proof fn lemma_large_integer_is_no_i64<F: Fn(&i64) -> Result<(), String>>(
    predicate: F,
    value: &Value,
    outcome: Result<(), Error<'_>>,
)
    requires
        rule::<i64, F>(predicate, value, outcome),
        content(*value) matches Content::Integer(n) && n > i64::MAX,
    ensures
        wrong_type(outcome, value, "i64"@),
{
}

/// Under a steady predicate, two validations of one value say the same.
pub proof fn lemma_validation_repeats<T: Scalar, F: Fn(&T) -> Result<(), String>>(
    predicate: F,
    value: &Value,
    first: Result<(), Error<'_>>,
    second: Result<(), Error<'_>>,
)
    requires
        rule::<T, F>(predicate, value, first),
        rule::<T, F>(predicate, value, second),
        steady::<T, F>(predicate),
    ensures
        agree(first, second),
{
    if T::fits(content(*value)) {
        let a = choose|native: T|
            (#[trigger] T::holds(content(*value), native)) && judged(
                predicate,
                native,
                value,
                first,
            );
        let b = choose|native: T|
            (#[trigger] T::holds(content(*value), native)) && judged(
                predicate,
                native,
                value,
                second,
            );
        match (first, second) {
            (Ok(_), Ok(_)) => {},
            (Ok(_), Err(Error::InvalidValue(_, text))) => {
                assert(call_ensures(predicate, (&a,), Ok(())));
                assert(call_ensures(predicate, (&b,), Err(text)));
            },
            (Err(Error::InvalidValue(_, text)), Ok(_)) => {
                assert(call_ensures(predicate, (&a,), Err(text)));
                assert(call_ensures(predicate, (&b,), Ok(())));
            },
            (Err(Error::InvalidValue(_, text)), Err(Error::InvalidValue(_, other))) => {
                assert(call_ensures(predicate, (&a,), Err(text)));
                assert(call_ensures(predicate, (&b,), Err(other)));
            },
            _ => {},
        }
    }
}

/// The extractor finds nothing in `value`.
pub open spec fn finds_nothing<T, G: Fn(&Value) -> Option<T>>(extract: G, value: &Value) -> bool {
    forall|found: Option<T>| #[trigger] call_ensures(extract, (value,), found) ==> found is None
}

/// The extractor finds a native value in `value`.
pub open spec fn finds_something<T, G: Fn(&Value) -> Option<T>>(extract: G, value: &Value) -> bool {
    forall|found: Option<T>| #[trigger] call_ensures(extract, (value,), found) ==> found is Some
}

/// Whatever the extractor and the predicate, an adapter reports a type
/// mismatch under its own name where its extractor finds nothing.
pub proof fn lemma_adapter_reports_mismatch<T, F, G>(
    made: &PrimitiveValidator<T, F, G>,
    value: &Value,
    outcome: Result<(), Error<'_>>,
) where F: Fn(&T) -> Result<(), String>, G: Fn(&Value) -> Option<T>
    requires
        made.admits(value, outcome),
        finds_nothing::<T, G>(made.extractor(), value),
    ensures
        wrong_type(outcome, value, made.label()),
{
}

/// An adapter passes a value in which its extractor finds something, under
/// a predicate that accepts everything.
pub proof fn lemma_adapter_passes<T, F, G>(
    made: &PrimitiveValidator<T, F, G>,
    value: &Value,
    outcome: Result<(), Error<'_>>,
) where F: Fn(&T) -> Result<(), String>, G: Fn(&Value) -> Option<T>
    requires
        made.admits(value, outcome),
        finds_something::<T, G>(made.extractor(), value),
        always_accepts::<T, F>(made.judge()),
    ensures
        outcome is Ok,
{
}

/// An adapter rejects a value in which its extractor finds something with
/// the predicate's own message, under a predicate that rejects everything
/// with that message.
pub proof fn lemma_adapter_rejects<T, F, G>(
    made: &PrimitiveValidator<T, F, G>,
    message: Seq<char>,
    value: &Value,
    outcome: Result<(), Error<'_>>,
) where F: Fn(&T) -> Result<(), String>, G: Fn(&Value) -> Option<T>
    requires
        made.admits(value, outcome),
        finds_something::<T, G>(made.extractor(), value),
        always_rejects::<T, F>(made.judge(), message),
    ensures
        rejected(outcome, value, message),
{
}

} // verus!
