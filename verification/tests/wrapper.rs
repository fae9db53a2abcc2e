use scalar_surreal::error::WrappedError;
use scalar_surreal::wrapper::Wrapper;
use surrealdb::types::{
    Error, ErrorDetails, Number, SerdeWrapper, SerializationError, SurrealValue, Value,
};

#[test]
fn string_is_read_back() {
    let value = Wrapper::new("woag!".to_string()).into_value();
    assert_eq!(value, Value::String("woag!".to_string()));
    assert_eq!(Wrapper::<String>::from_value(value).unwrap(), Wrapper("woag!".to_string()));
}

#[test]
fn i8_is_read_back() {
    let value = Wrapper::new(64_i8).into_value();
    assert_eq!(value, Value::Number(64.into()));
    assert_eq!(Wrapper::<i8>::from_value(value).unwrap(), Wrapper(64));
    for number in vec![i8::MIN, i8::MAX] {
        let value = Wrapper::new(number).into_value();
        assert_eq!(Wrapper::<i8>::from_value(value).unwrap(), Wrapper(number));
    }
}

#[test]
fn i16_is_read_back() {
    let value = Wrapper::new(64_i16).into_value();
    assert_eq!(value, Value::Number(64.into()));
    assert_eq!(Wrapper::<i16>::from_value(value).unwrap(), Wrapper(64));
    for number in vec![i16::MIN, i16::MAX] {
        let value = Wrapper::new(number).into_value();
        assert_eq!(Wrapper::<i16>::from_value(value).unwrap(), Wrapper(number));
    }
}

#[test]
fn i32_is_read_back() {
    let value = Wrapper::new(64_i32).into_value();
    assert_eq!(value, Value::Number(64.into()));
    assert_eq!(Wrapper::<i32>::from_value(value).unwrap(), Wrapper(64));
    for number in vec![i32::MIN, i32::MAX] {
        let value = Wrapper::new(number).into_value();
        assert_eq!(Wrapper::<i32>::from_value(value).unwrap(), Wrapper(number));
    }
}

#[test]
fn i64_is_read_back() {
    let value = Wrapper::new(64_i64).into_value();
    assert_eq!(value, Value::Number(64.into()));
    assert_eq!(Wrapper::<i64>::from_value(value).unwrap(), Wrapper(64));
    for number in vec![i64::MIN, i64::MAX] {
        let value = Wrapper::new(number).into_value();
        assert_eq!(Wrapper::<i64>::from_value(value).unwrap(), Wrapper(number));
    }
}

#[test]
fn u8_is_read_back() {
    let value = Wrapper::new(64_u8).into_value();
    assert_eq!(value, Value::Number(64.into()));
    assert_eq!(Wrapper::<u8>::from_value(value).unwrap(), Wrapper(64));
    for number in vec![u8::MIN, u8::MAX] {
        let value = Wrapper::new(number).into_value();
        assert_eq!(Wrapper::<u8>::from_value(value).unwrap(), Wrapper(number));
    }
}

#[test]
fn u16_is_read_back() {
    let value = Wrapper::new(64_u16).into_value();
    assert_eq!(value, Value::Number(64.into()));
    assert_eq!(Wrapper::<u16>::from_value(value).unwrap(), Wrapper(64));
    for number in vec![u16::MIN, u16::MAX] {
        let value = Wrapper::new(number).into_value();
        assert_eq!(Wrapper::<u16>::from_value(value).unwrap(), Wrapper(number));
    }
}

#[test]
fn u32_is_read_back() {
    let value = Wrapper::new(64_u32).into_value();
    assert_eq!(value, Value::Number(64.into()));
    assert_eq!(Wrapper::<u32>::from_value(value).unwrap(), Wrapper(64));
    for number in vec![u32::MIN, u32::MAX] {
        let value = Wrapper::new(number).into_value();
        assert_eq!(Wrapper::<u32>::from_value(value).unwrap(), Wrapper(number));
    }
}

#[test]
fn u64_is_read_back_where_it_fits() {
    let value = Wrapper::new(64_u64).into_value();
    assert_eq!(value, Value::Number(64.into()));
    assert_eq!(Wrapper::<u64>::from_value(value).unwrap(), Wrapper(64));
    let largest = i64::MAX as u64;
    let value = Wrapper::new(largest).into_value();
    assert_eq!(Wrapper::<u64>::from_value(value).unwrap(), Wrapper(largest));
}

#[test]
fn larger_u64_is_stored_as_its_decimal() {
    for number in vec![9_223_372_036_854_775_808, u64::MAX] {
        let value = Wrapper::new(number).into_value();
        let Value::Number(Number::Decimal(decimal)) = &value else {
            panic!("a decimal");
        };
        assert_eq!(decimal.to_string(), number.to_string());
        assert!(Wrapper::<u64>::from_value(value.clone()).is_err());
        assert!(Wrapper::<i64>::from_value(value).is_err());
    }
}

#[test]
fn number_is_read_by_any_type_that_it_fits() {
    let value = || Wrapper::new(200_i32).into_value();
    assert_eq!(Wrapper::<u8>::from_value(value()).unwrap(), Wrapper(200));
    assert_eq!(Wrapper::<u64>::from_value(value()).unwrap(), Wrapper(200));
    assert!(Wrapper::<i8>::from_value(value()).is_err());
    let negative = || Wrapper::new(-1_i8).into_value();
    assert_eq!(Wrapper::<i64>::from_value(negative()).unwrap(), Wrapper(-1));
    assert!(Wrapper::<u16>::from_value(negative()).is_err());
    assert!(Wrapper::<u32>::from_value(negative()).is_err());
    assert!(Wrapper::<u64>::from_value(negative()).is_err());
    let large = || Wrapper::new(70_000_u32).into_value();
    assert!(Wrapper::<i16>::from_value(large()).is_err());
    assert!(Wrapper::<u16>::from_value(large()).is_err());
    let larger = || Wrapper::new(5_000_000_000_i64).into_value();
    assert!(Wrapper::<i32>::from_value(larger()).is_err());
    assert!(Wrapper::<u32>::from_value(larger()).is_err());
}

#[test]
fn unit_is_read_back() {
    let value = Wrapper::new(()).into_value();
    assert_eq!(value, Value::Null);
    assert_eq!(Wrapper::<()>::from_value(value).unwrap(), Wrapper(()));
    assert!(Wrapper::<()>::from_value(Value::None).is_err());
    assert!(Wrapper::<()>::from_value(Value::Bool(false)).is_err());
}

#[test]
fn truth_value_is_read_back() {
    let value = Wrapper::new(true).into_value();
    assert_eq!(value, Value::Bool(true));
    assert_eq!(Wrapper::<bool>::from_value(value).unwrap(), Wrapper(true));
    assert_eq!(Wrapper::<bool>::from_value(Value::Bool(false)).unwrap(), Wrapper(false));
}

#[test]
fn values_of_another_kind_are_errors() {
    assert!(Wrapper::<String>::from_value(Value::Bool(true)).is_err());
    assert!(Wrapper::<String>::from_value(Value::Number(1.into())).is_err());
    assert!(Wrapper::<String>::from_value(Value::None).is_err());
    assert!(Wrapper::<i64>::from_value(Value::String("1".to_string())).is_err());
    assert!(Wrapper::<i64>::from_value(Value::Number(1.5.into())).is_err());
    assert!(Wrapper::<i64>::from_value(Value::Null).is_err());
    assert!(Wrapper::<bool>::from_value(Value::Number(1.into())).is_err());
    assert!(Wrapper::<bool>::from_value(Value::Null).is_err());
}

#[test]
fn deserialized_value_is_wrapped() {
    assert_eq!(Wrapper::from_deserialized(Ok(3)), Ok(Wrapper(3)));
    let error = Error::internal("broken".to_string());
    assert_eq!(
        Wrapper::<u8>::from_deserialized(Err(WrappedError(error.clone()))),
        Err(error)
    );
}

fn deserialization(message: &str) -> Error {
    Error::serialization(message.to_string(), SerializationError::Deserialization)
}

#[test]
fn failed_reading_hands_on_the_error() {
    assert_eq!(
        Wrapper::<String>::from_value(Value::Bool(true)),
        Err(deserialization("invalid type: boolean `true`, expected a string"))
    );
    assert_eq!(
        Wrapper::<bool>::from_value(Value::String("yes".to_string())),
        Err(deserialization("invalid type: string \"yes\", expected a boolean"))
    );
    assert_eq!(
        Wrapper::<()>::from_value(Value::Bool(false)),
        Err(deserialization("invalid type: boolean `false`, expected unit"))
    );
    assert_eq!(
        Wrapper::<u8>::from_value(Value::Number(300.into())),
        Err(deserialization("invalid value: integer `300`, expected u8"))
    );
}

#[test]
fn every_failed_reading_says_so() {
    let value = || Value::Array(vec![Value::Null].into());
    let errors = vec![
        (Wrapper::<String>::from_value(value()).err(), SerdeWrapper::<String>::from_value(value()).err()),
        (Wrapper::<bool>::from_value(value()).err(), SerdeWrapper::<bool>::from_value(value()).err()),
        (Wrapper::<()>::from_value(value()).err(), SerdeWrapper::<()>::from_value(value()).err()),
        (Wrapper::<i8>::from_value(value()).err(), SerdeWrapper::<i8>::from_value(value()).err()),
        (Wrapper::<i16>::from_value(value()).err(), SerdeWrapper::<i16>::from_value(value()).err()),
        (Wrapper::<i32>::from_value(value()).err(), SerdeWrapper::<i32>::from_value(value()).err()),
        (Wrapper::<i64>::from_value(value()).err(), SerdeWrapper::<i64>::from_value(value()).err()),
        (Wrapper::<u8>::from_value(value()).err(), SerdeWrapper::<u8>::from_value(value()).err()),
        (Wrapper::<u16>::from_value(value()).err(), SerdeWrapper::<u16>::from_value(value()).err()),
        (Wrapper::<u32>::from_value(value()).err(), SerdeWrapper::<u32>::from_value(value()).err()),
        (Wrapper::<u64>::from_value(value()).err(), SerdeWrapper::<u64>::from_value(value()).err()),
    ];
    for (error, expected) in errors {
        assert_eq!(error, expected);
        assert_eq!(
            error.unwrap().details(),
            &ErrorDetails::Serialization(Some(SerializationError::Deserialization))
        );
    }
}
