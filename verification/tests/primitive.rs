use json_validators::validators::primitive;
use json_validators::validators::primitive::PrimitiveValidator;
use json_validators::{Error, Validator, Value};

#[test]
fn string() {
    let validator = primitive::string(|_| Ok(()));

    assert_eq!(Ok(()), validator.validate(&Value::String("ok".to_string())));
}

#[test]
fn string_invalid_value() {
    let validator = primitive::string(|_| Err(String::from("error message")));

    assert!(matches!(
        validator.validate(&Value::String(String::new())),
        Err(Error::InvalidValue(_, _))
    ));
}

#[test]
fn string_invalid_type() {
    let validator = primitive::string(|_| Ok(()));

    assert!(matches!(
        validator.validate(&Value::Null),
        Err(Error::InvalidType(_, _))
    ));
}

#[test]
fn null() {
    let validator = primitive::null();

    assert_eq!(Ok(()), validator.validate(&Value::Null));
}

#[test]
fn i64() {
    let validator = primitive::i64(|_| Ok(()));

    assert_eq!(Ok(()), validator.validate(&Value::from(4)));
}

#[test]
fn string_invalid_value_keeps_message_and_value() {
    let validator = primitive::string(|_| Err(String::from("error message")));
    let value = Value::String(String::new());

    assert_eq!(
        Err(Error::InvalidValue(&value, String::from("error message"))),
        validator.validate(&value)
    );
}

#[test]
fn string_invalid_type_names_kind_and_value() {
    let validator = primitive::string(|_| Ok(()));
    let value = Value::Null;

    assert_eq!(
        Err(Error::InvalidType(&value, String::from("string"))),
        validator.validate(&value)
    );
}

#[test]
fn error_borrows_the_very_value() {
    let validator = primitive::bool(|_| Err(String::from("no")));
    let value = Value::Bool(true);

    match validator.validate(&value) {
        Err(Error::InvalidValue(subject, _)) => assert!(std::ptr::eq(subject, &value)),
        other => panic!("unexpected outcome: {:?}", other),
    }
}

#[test]
fn string_predicate_sees_the_text() {
    let validator = primitive::string(|text| {
        if text == "ok" {
            Ok(())
        } else {
            Err(format!("not ok: {}", text))
        }
    });
    let good = Value::String("ok".to_string());
    let bad = Value::String("ko".to_string());

    assert_eq!(Ok(()), validator.validate(&good));
    assert_eq!(
        Err(Error::InvalidValue(&bad, String::from("not ok: ko"))),
        validator.validate(&bad)
    );
}

#[test]
fn bool_predicate_sees_the_flag() {
    let validator = primitive::bool(|flag| if *flag { Ok(()) } else { Err(String::from("false")) });
    let yes = Value::Bool(true);
    let no = Value::Bool(false);

    assert_eq!(Ok(()), validator.validate(&yes));
    assert_eq!(
        Err(Error::InvalidValue(&no, String::from("false"))),
        validator.validate(&no)
    );
}

#[test]
fn i64_predicate_sees_the_number() {
    let validator = primitive::i64(|number| {
        if *number == -7 {
            Ok(())
        } else {
            Err(number.to_string())
        }
    });
    let good = Value::from(-7);
    let bad = Value::from(8);

    assert_eq!(Ok(()), validator.validate(&good));
    assert_eq!(
        Err(Error::InvalidValue(&bad, String::from("8"))),
        validator.validate(&bad)
    );
}

#[test]
fn u64_predicate_sees_the_number() {
    let validator = primitive::u64(|number| {
        if *number == u64::MAX {
            Ok(())
        } else {
            Err(number.to_string())
        }
    });
    let good = Value::from(u64::MAX);
    let bad = Value::from(0u64);

    assert_eq!(Ok(()), validator.validate(&good));
    assert_eq!(
        Err(Error::InvalidValue(&bad, String::from("0"))),
        validator.validate(&bad)
    );
}

fn samples() -> Vec<Value> {
    vec![
        Value::Null,
        Value::Bool(false),
        Value::from(-3),
        Value::from(3),
        Value::from(u64::MAX),
        Value::from(2.5),
        Value::String("text".to_string()),
        Value::Array(vec![Value::Null]),
        Value::Object(serde_json::Map::new()),
    ]
}

#[test]
fn other_kind_is_invalid_type_whatever_the_predicate() {
    let string = primitive::string(|_| Err(String::from("asked")));
    let boolean = primitive::bool(|_| Err(String::from("asked")));
    let signed = primitive::i64(|_| Err(String::from("asked")));
    let unsigned = primitive::u64(|_| Err(String::from("asked")));
    let nothing = primitive::null();

    for value in samples() {
        if !value.is_string() {
            assert_eq!(
                Err(Error::InvalidType(&value, String::from("string"))),
                string.validate(&value)
            );
        }
        if !value.is_boolean() {
            assert_eq!(
                Err(Error::InvalidType(&value, String::from("bool"))),
                boolean.validate(&value)
            );
        }
        if !value.is_i64() {
            assert_eq!(
                Err(Error::InvalidType(&value, String::from("i64"))),
                signed.validate(&value)
            );
        }
        if !value.is_u64() {
            assert_eq!(
                Err(Error::InvalidType(&value, String::from("u64"))),
                unsigned.validate(&value)
            );
        }
        if !value.is_null() {
            assert_eq!(
                Err(Error::InvalidType(&value, String::from("null"))),
                nothing.validate(&value)
            );
        }
    }
}

#[test]
fn accepting_predicate_passes_every_value_of_the_kind() {
    assert_eq!(
        Ok(()),
        primitive::string(|_| Ok(())).validate(&Value::String(String::new()))
    );
    assert_eq!(Ok(()), primitive::bool(|_| Ok(())).validate(&Value::Bool(false)));
    assert_eq!(Ok(()), primitive::i64(|_| Ok(())).validate(&Value::from(i64::MIN)));
    assert_eq!(Ok(()), primitive::i64(|_| Ok(())).validate(&Value::from(i64::MAX)));
    assert_eq!(Ok(()), primitive::u64(|_| Ok(())).validate(&Value::from(0)));
    assert_eq!(Ok(()), primitive::u64(|_| Ok(())).validate(&Value::from(u64::MAX)));
}

#[test]
fn rejecting_predicate_fails_with_its_message() {
    let text = Value::String("text".to_string());
    let flag = Value::Bool(true);
    let number = Value::from(12);

    assert_eq!(
        Err(Error::InvalidValue(&text, String::from("M"))),
        primitive::string(|_| Err(String::from("M"))).validate(&text)
    );
    assert_eq!(
        Err(Error::InvalidValue(&flag, String::from("M"))),
        primitive::bool(|_| Err(String::from("M"))).validate(&flag)
    );
    assert_eq!(
        Err(Error::InvalidValue(&number, String::from("M"))),
        primitive::i64(|_| Err(String::from("M"))).validate(&number)
    );
    assert_eq!(
        Err(Error::InvalidValue(&number, String::from("M"))),
        primitive::u64(|_| Err(String::from("M"))).validate(&number)
    );
}

#[test]
fn negative_integer_is_no_u64() {
    let value = Value::from(-1);

    assert_eq!(
        Err(Error::InvalidType(&value, String::from("u64"))),
        primitive::u64(|_| Ok(())).validate(&value)
    );
}

#[test]
fn fractional_number_is_no_integer() {
    let value = Value::from(1.5);

    assert_eq!(
        Err(Error::InvalidType(&value, String::from("i64"))),
        primitive::i64(|_| Ok(())).validate(&value)
    );
    assert_eq!(
        Err(Error::InvalidType(&value, String::from("u64"))),
        primitive::u64(|_| Ok(())).validate(&value)
    );
}

#[test]
fn whole_number_stored_as_float_is_no_integer() {
    let value = Value::from(256.0);

    assert_eq!(
        Err(Error::InvalidType(&value, String::from("i64"))),
        primitive::i64(|_| Ok(())).validate(&value)
    );
    assert_eq!(
        Err(Error::InvalidType(&value, String::from("u64"))),
        primitive::u64(|_| Ok(())).validate(&value)
    );
}

#[test]
fn integer_beyond_i64_is_no_i64() {
    let value = Value::from(9_223_372_036_854_775_808u64);

    assert_eq!(
        Err(Error::InvalidType(&value, String::from("i64"))),
        primitive::i64(|_| Ok(())).validate(&value)
    );
    assert_eq!(Ok(()), primitive::u64(|_| Ok(())).validate(&value));
}

#[test]
fn null_rejects_what_is_not_null() {
    let value = Value::Bool(false);

    assert_eq!(
        Err(Error::InvalidType(&value, String::from("null"))),
        primitive::null().validate(&value)
    );
}

#[test]
fn validation_repeats() {
    let validator = primitive::i64(|number| {
        if *number > 0 {
            Ok(())
        } else {
            Err(String::from("not positive"))
        }
    });

    for value in samples() {
        let first = validator.validate(&value);
        let second = validator.validate(&value);
        assert_eq!(first, second);
    }
}

#[test]
fn constructors_give_independent_validators() {
    let first = primitive::string(|_| Ok(()));
    let second = primitive::string(|_| Err(String::from("second")));
    let value = Value::String("x".to_string());

    assert_eq!(Ok(()), first.validate(&value));
    assert_eq!(
        Err(Error::InvalidValue(&value, String::from("second"))),
        second.validate(&value)
    );
    assert_eq!(Ok(()), first.validate(&value));
}

#[test]
fn adapter_pairs_any_extractor_with_a_predicate() {
    let validator = PrimitiveValidator::new(
        String::from("length"),
        |value: &Value| value.as_array().map(|items| items.len()),
        |length: &usize| {
            if *length == 2 {
                Ok(())
            } else {
                Err(format!("{} items", length))
            }
        },
    );
    let pair = Value::Array(vec![Value::Null, Value::Null]);
    let single = Value::Array(vec![Value::Null]);
    let other = Value::Null;

    assert_eq!(Ok(()), validator.validate(&pair));
    assert_eq!(
        Err(Error::InvalidValue(&single, String::from("1 items"))),
        validator.validate(&single)
    );
    assert_eq!(
        Err(Error::InvalidType(&other, String::from("length"))),
        validator.validate(&other)
    );
}

#[test]
fn validators_are_interchangeable() {
    let validators: Vec<Box<dyn Validator>> = vec![
        Box::new(primitive::null()),
        Box::new(primitive::bool(|_| Ok(()))),
        Box::new(primitive::string(|_| Ok(()))),
    ];
    let value = Value::Bool(true);
    let passed: Vec<bool> = validators
        .iter()
        .map(|validator| validator.validate(&value).is_ok())
        .collect();

    assert_eq!(vec![false, true, false], passed);
}
