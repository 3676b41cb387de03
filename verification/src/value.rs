//! The model of a JSON value and the contracts of the accessors that read it.
use vstd::prelude::*;

verus! {

/// `serde_json::Value`, carried through verified code as an opaque value.
/// What it holds is visible to contracts only through [`content`].
#[verifier::external_type_specification]
#[verifier::external_body]
pub struct ExValue(serde_json::Value);

/// What a JSON value holds, as far as the scalar validators look.
///
/// Arrays and objects are not looked into. A number is either an integer
/// between `i64::MIN` and `u64::MAX`, or a number stored in floating point,
/// which no integer accessor reads, whatever its magnitude.
pub enum Content {
    Null,
    Bool(bool),
    Integer(int),
    Float,
    Text(Seq<char>),
    Array,
    Object,
}

/// The content of a JSON value. It has no body: what the contracts of the
/// accessors below say of it is all that is known, and they are trusted, not
/// proved. They describe `serde_json` as built without arbitrary precision,
/// where a number is an unsigned integer, a negative integer or a float.
pub uninterp spec fn content(value: serde_json::Value) -> Content;

/// Trusted contract of `serde_json::Value::as_null`: it answers `Some(())`
/// exactly for the null value.
pub assume_specification[ serde_json::Value::as_null ](value: &serde_json::Value) -> (found:
    Option<()>)
    ensures
        found is Some <==> content(*value) is Null,
;

/// Trusted contract of `serde_json::Value::as_bool`: it hands out the boolean
/// of a boolean value and nothing for any other value.
pub assume_specification[ serde_json::Value::as_bool ](value: &serde_json::Value) -> (found:
    Option<std::primitive::bool>)
    ensures
        match found {
            Some(flag) => content(*value) == Content::Bool(flag),
            None => !(content(*value) is Bool),
        },
;

/// Trusted contract of `serde_json::Value::as_str`: it hands out the
/// characters of a string value and nothing for any other value.
pub assume_specification<'a>[ serde_json::Value::as_str ](value: &'a serde_json::Value) -> (found:
    Option<&'a str>)
    ensures
        match found {
            Some(text) => content(*value) == Content::Text(text@),
            None => !(content(*value) is Text),
        },
;

/// Trusted contract of `serde_json::Value::as_i64`: it hands out an integer
/// number that lies in the range of `i64`, and nothing for a larger integer,
/// a number stored in floating point or a value that is no number.
pub assume_specification[ serde_json::Value::as_i64 ](value: &serde_json::Value) -> (found:
    Option<std::primitive::i64>)
    ensures
        match found {
            Some(number) => content(*value) == Content::Integer(number as int),
            None => !(content(*value) matches Content::Integer(n) && i64::MIN <= n <= i64::MAX),
        },
;

/// Trusted contract of `serde_json::Value::as_u64`: it hands out an integer
/// number that is not negative, and nothing for a negative integer, a number
/// stored in floating point or a value that is no number.
pub assume_specification[ serde_json::Value::as_u64 ](value: &serde_json::Value) -> (found:
    Option<std::primitive::u64>)
    ensures
        match found {
            Some(number) => content(*value) == Content::Integer(number as int),
            None => !(content(*value) matches Content::Integer(n) && 0 <= n <= u64::MAX),
        },
;

/// A native scalar type that a JSON value may be read as.
pub trait Scalar: Sized {
    /// The name under which a mismatch of this kind is reported.
    spec fn label() -> Seq<char>;

    /// Whether a value of this content is of this kind.
    spec fn fits(content: Content) -> bool;

    /// Whether `native` is what a value of this content is read as.
    spec fn holds(content: Content, native: Self) -> bool;

    /// Only a value of this kind is read as a native value.
    proof fn lemma_held_fits(content: Content, native: Self)
        requires
            Self::holds(content, native),
        ensures
            Self::fits(content),
    ;
}

impl Scalar for String {
    open spec fn label() -> Seq<char> {
        "string"@
    }

    open spec fn fits(content: Content) -> bool {
        content is Text
    }

    open spec fn holds(content: Content, native: Self) -> bool {
        content == Content::Text(native@)
    }

    proof fn lemma_held_fits(content: Content, native: Self) {
    }
}

impl Scalar for () {
    open spec fn label() -> Seq<char> {
        "null"@
    }

    open spec fn fits(content: Content) -> bool {
        content is Null
    }

    open spec fn holds(content: Content, native: Self) -> bool {
        content is Null
    }

    proof fn lemma_held_fits(content: Content, native: Self) {
    }
}

impl Scalar for bool {
    open spec fn label() -> Seq<char> {
        "bool"@
    }

    open spec fn fits(content: Content) -> bool {
        content is Bool
    }

    open spec fn holds(content: Content, native: Self) -> bool {
        content == Content::Bool(native)
    }

    proof fn lemma_held_fits(content: Content, native: Self) {
    }
}

impl Scalar for i64 {
    open spec fn label() -> Seq<char> {
        "i64"@
    }

    open spec fn fits(content: Content) -> bool {
        content matches Content::Integer(n) && i64::MIN <= n <= i64::MAX
    }

    open spec fn holds(content: Content, native: Self) -> bool {
        content == Content::Integer(native as int)
    }

    proof fn lemma_held_fits(content: Content, native: Self) {
    }
}

impl Scalar for u64 {
    open spec fn label() -> Seq<char> {
        "u64"@
    }

    open spec fn fits(content: Content) -> bool {
        content matches Content::Integer(n) && 0 <= n <= u64::MAX
    }

    open spec fn holds(content: Content, native: Self) -> bool {
        content == Content::Integer(native as int)
    }

    proof fn lemma_held_fits(content: Content, native: Self) {
    }
}

/// What an extractor of kind `T` may answer for `value`: the native value of
/// a value of the kind, and nothing for any other value.
pub open spec fn reads<T: Scalar>(value: &serde_json::Value, found: Option<T>) -> bool {
    match found {
        Some(native) => T::holds(content(*value), native),
        None => !T::fits(content(*value)),
    }
}

} // verus!
