//! Validators for the scalar kinds: an extractor paired with a predicate.
use crate::error::{wrong_type, Error};
use crate::validator::Validator;
use crate::value::{content, reads, Scalar};
use serde_json::Value;
use vstd::prelude::*;

verus! {

/// What the predicate's answer on `native` makes of `value`: success stays
/// success, and a message becomes a rejection of `value` with that message.
pub open spec fn judged<T, F: Fn(&T) -> Result<(), String>>(
    predicate: F,
    native: T,
    value: &Value,
    outcome: Result<(), Error<'_>>,
) -> bool {
    match outcome {
        Ok(()) => call_ensures(predicate, (&native,), Ok(())),
        Err(Error::InvalidValue(subject, text)) => *subject == *value && call_ensures(
            predicate,
            (&native,),
            Err(text),
        ),
        Err(Error::InvalidType(_, _)) => false,
    }
}

/// The outcomes of validating `value` as kind `T` under `predicate`: a value
/// of another kind is a type mismatch that names the kind, whatever the
/// predicate; a value of the kind is judged by the predicate on its native
/// value.
pub open spec fn rule<T: Scalar, F: Fn(&T) -> Result<(), String>>(
    predicate: F,
    value: &Value,
    outcome: Result<(), Error<'_>>,
) -> bool {
    if T::fits(content(*value)) {
        exists|native: T|
            (#[trigger] T::holds(content(*value), native)) && judged(
                predicate,
                native,
                value,
                outcome,
            )
    } else {
        wrong_type(outcome, value, T::label())
    }
}

/// An extractor and a predicate on what it extracts, under a kind's name.
#[verifier::reject_recursive_types(T)]
pub struct PrimitiveValidator<T, F, G> where
    F: Fn(&T) -> Result<(), String>,
    G: Fn(&Value) -> Option<T>,
 {
    typename: String,
    extract: G,
    predicate: F,
}

impl<T, F, G> PrimitiveValidator<T, F, G> where
    F: Fn(&T) -> Result<(), String>,
    G: Fn(&Value) -> Option<T>,
 {
    /// Both functions can be called on every input.
    #[verifier::type_invariant]
    spec fn ready(&self) -> bool {
        &&& forall|value: &Value| call_requires(self.extract, (value,))
        &&& forall|native: &T| call_requires(self.predicate, (native,))
    }

    /// The name that a type mismatch reports.
    pub closed spec fn label(&self) -> Seq<char> {
        self.typename@
    }

    /// The extractor.
    pub closed spec fn extractor(&self) -> G {
        self.extract
    }

    /// The predicate.
    pub closed spec fn judge(&self) -> F {
        self.predicate
    }

    /// Pairs `extract` with `predicate` under the name `typename`. Nothing
    /// is checked here: every failure is reported by `validate`.
    pub fn new(typename: String, extract: G, predicate: F) -> (made: Self)
        requires
            forall|value: &Value| call_requires(extract, (value,)),
            forall|native: &T| call_requires(predicate, (native,)),
        ensures
            made.label() == typename@,
            made.extractor() == extract,
            made.judge() == predicate,
    {
        PrimitiveValidator { typename, extract, predicate }
    }
}

impl<T, F, G> Validator for PrimitiveValidator<T, F, G> where
    F: Fn(&T) -> Result<(), String>,
    G: Fn(&Value) -> Option<T>,
 {
    /// Nothing extracted is a type mismatch under the adapter's name, and
    /// the predicate is not asked. Otherwise the predicate's answer on what
    /// was extracted decides, and its message is passed on as it is.
    open spec fn admits(&self, value: &Value, outcome: Result<(), Error<'_>>) -> bool {
        match outcome {
            Err(Error::InvalidType(subject, name)) => {
                &&& *subject == *value
                &&& name@ == self.label()
                &&& call_ensures(self.extractor(), (value,), None)
            },
            _ => exists|native: T|
                (#[trigger] call_ensures(self.extractor(), (value,), Some(native))) && judged(
                    self.judge(),
                    native,
                    value,
                    outcome,
                ),
        }
    }

    fn validate<'a>(&self, value: &'a Value) -> (outcome: Result<(), Error<'a>>) {
        proof {
            use_type_invariant(self);
        }
        match (self.extract)(value) {
            None => Err(Error::InvalidType(value, self.typename.clone())),
            Some(native) => {
                let answer = (self.predicate)(&native);
                let outcome = match answer {
                    Ok(()) => Ok(()),
                    Err(message) => Err(Error::InvalidValue(value, message)),
                };
                proof {
                    if answer is Ok {
                        assert(answer->Ok_0 =~= ());
                    }
                    assert(call_ensures(self.extractor(), (value,), Some(native)) && judged(
                        self.judge(),
                        native,
                        value,
                        outcome,
                    ));
                }
                outcome
            },
        }
    }
}

/// An adapter whose extractor reads kind `T`, under the kind's name, reports
/// only what the kind's rule allows.
pub proof fn lemma_adapter_keeps_rule<T: Scalar, F, G>(
    made: &PrimitiveValidator<T, F, G>,
    value: &Value,
    outcome: Result<(), Error<'_>>,
) where F: Fn(&T) -> Result<(), String>, G: Fn(&Value) -> Option<T>
    requires
        made.label() == T::label(),
        forall|any: &Value, found: Option<T>| #[trigger]
            call_ensures(made.extractor(), (any,), found) ==> reads::<T>(any, found),
        made.admits(value, outcome),
    ensures
        rule::<T, F>(made.judge(), value, outcome),
{
    match outcome {
        Err(Error::InvalidType(_, _)) => {
            assert(reads::<T>(value, None));
        },
        _ => {
            let native = choose|native: T| #[trigger]
                call_ensures(made.extractor(), (value,), Some(native)) && judged(
                    made.judge(),
                    native,
                    value,
                    outcome,
                );
            assert(reads::<T>(value, Some(native)));
            T::lemma_held_fits(content(*value), native);
        },
    }
}

/// A validator that passes a string value if `predicate` accepts its text.
///
/// Any other value is a type mismatch named `string`. The predicate must be
/// callable on every string.
pub fn string<F>(predicate: F) -> (made: impl Validator) where
    F: Fn(&String) -> Result<(), String> + 'static,

    requires
        forall|native: &String| call_requires(predicate, (native,)),
    ensures
        forall|value: &Value, outcome: Result<(), Error<'_>>| #[trigger]
            made.admits(value, outcome) ==> rule::<String, F>(predicate, value, outcome),
{
    let extract = |value: &Value| -> (found: Option<String>)
        ensures
            reads::<String>(value, found),
        {
            match value.as_str() {
                Some(text) => Some(text.to_owned()),
                None => None,
            }
        };
    let made = PrimitiveValidator::new("string".to_owned(), extract, predicate);
    proof {
        assert forall|value: &Value, outcome: Result<(), Error<'_>>| #[trigger]
            made.admits(value, outcome) implies rule::<String, F>(predicate, value, outcome) by {
            lemma_adapter_keeps_rule(&made, value, outcome);
        }
    }
    made
}

/// A validator that passes a boolean value if `predicate` accepts it.
///
/// Any other value is a type mismatch named `bool`. The predicate must be
/// callable on both booleans.
pub fn bool<F>(predicate: F) -> (made: impl Validator) where
    F: Fn(&bool) -> Result<(), String> + 'static,

    requires
        forall|native: &bool| call_requires(predicate, (native,)),
    ensures
        forall|value: &Value, outcome: Result<(), Error<'_>>| #[trigger]
            made.admits(value, outcome) ==> rule::<bool, F>(predicate, value, outcome),
{
    let made = PrimitiveValidator::new("bool".to_owned(), Value::as_bool, predicate);
    proof {
        assert forall|value: &Value, outcome: Result<(), Error<'_>>| #[trigger]
            made.admits(value, outcome) implies rule::<bool, F>(predicate, value, outcome) by {
            lemma_adapter_keeps_rule(&made, value, outcome);
        }
    }
    made
}

/// A validator that passes the null value and nothing else.
///
/// Any other value is a type mismatch named `null`.
#[must_use]
pub fn null() -> (made: impl Validator)
    ensures
        forall|value: &Value, outcome: Result<(), Error<'_>>| #[trigger]
            made.admits(value, outcome) ==> if content(*value) is Null {
                outcome is Ok
            } else {
                wrong_type(outcome, value, "null"@)
            },
{
    let predicate = |unit: &()| -> (answer: Result<(), String>)
        ensures
            answer is Ok,
        { Ok(()) };
    let made = PrimitiveValidator::new("null".to_owned(), Value::as_null, predicate);
    proof {
        assert forall|value: &Value, outcome: Result<(), Error<'_>>| #[trigger]
            made.admits(value, outcome) implies if content(*value) is Null {
            outcome is Ok
        } else {
            wrong_type(outcome, value, "null"@)
        } by {
            lemma_adapter_keeps_rule(&made, value, outcome);
        }
    }
    made
}

/// A validator that passes an integer number in the range of `i64` if
/// `predicate` accepts it.
///
/// Any other value is a type mismatch named `i64`: a larger integer and a
/// number stored in floating point too. The predicate must be callable on
/// every `i64`.
pub fn i64<F>(predicate: F) -> (made: impl Validator) where
    F: Fn(&i64) -> Result<(), String> + 'static,

    requires
        forall|native: &i64| call_requires(predicate, (native,)),
    ensures
        forall|value: &Value, outcome: Result<(), Error<'_>>| #[trigger]
            made.admits(value, outcome) ==> rule::<i64, F>(predicate, value, outcome),
{
    let made = PrimitiveValidator::new("i64".to_owned(), Value::as_i64, predicate);
    proof {
        assert forall|value: &Value, outcome: Result<(), Error<'_>>| #[trigger]
            made.admits(value, outcome) implies rule::<i64, F>(predicate, value, outcome) by {
            lemma_adapter_keeps_rule(&made, value, outcome);
        }
    }
    made
}

/// A validator that passes an integer number that is not negative if
/// `predicate` accepts it.
///
/// Any other value is a type mismatch named `u64`: a negative integer and a
/// number stored in floating point too. The predicate must be callable on
/// every `u64`.
pub fn u64<F>(predicate: F) -> (made: impl Validator) where
    F: Fn(&u64) -> Result<(), String> + 'static,

    requires
        forall|native: &u64| call_requires(predicate, (native,)),
    ensures
        forall|value: &Value, outcome: Result<(), Error<'_>>| #[trigger]
            made.admits(value, outcome) ==> rule::<u64, F>(predicate, value, outcome),
{
    let made = PrimitiveValidator::new("u64".to_owned(), Value::as_u64, predicate);
    proof {
        assert forall|value: &Value, outcome: Result<(), Error<'_>>| #[trigger]
            made.admits(value, outcome) implies rule::<u64, F>(predicate, value, outcome) by {
            lemma_adapter_keeps_rule(&made, value, outcome);
        }
    }
    made
}

} // verus!
