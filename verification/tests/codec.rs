use cedar_py::values::to_restricted;
use cedar_py::values::ConversionError;
use cedar_py::values::DynamicValue;
use cedar_py::values::RestrictedExpr;

#[test]
fn convert_scalars_unchanged() {
    assert_eq!(
        to_restricted(&DynamicValue::Bool(true)),
        Ok(RestrictedExpr::Bool(true))
    );
    assert_eq!(
        to_restricted(&DynamicValue::Int64(-7)),
        Ok(RestrictedExpr::Int64(-7))
    );
    assert_eq!(
        to_restricted(&DynamicValue::Str(String::from("hi"))),
        Ok(RestrictedExpr::Str(String::from("hi")))
    );
}

#[test]
fn convert_integral_float_to_integer() {
    assert_eq!(
        to_restricted(&DynamicValue::Float64(Some(4))),
        Ok(RestrictedExpr::Int64(4))
    );
}

#[test]
fn null_and_non_integral_fail_distinguishably() {
    assert_eq!(
        to_restricted(&DynamicValue::Null),
        Err(ConversionError::UnsupportedValue)
    );
    assert_eq!(
        to_restricted(&DynamicValue::Float64(None)),
        Err(ConversionError::NonIntegerNumber)
    );
}

#[test]
fn opaque_host_value_fails_with_type_name() {
    assert_eq!(
        to_restricted(&DynamicValue::Opaque(String::from("set"))),
        Err(ConversionError::UnsupportedType(String::from("set")))
    );
}

#[test]
fn context_mapping_converts_structurally() {
    let value = DynamicValue::Mapping(vec![
        (String::from("admin"), DynamicValue::Bool(true)),
        (
            String::from("tags"),
            DynamicValue::Sequence(vec![
                DynamicValue::Str(String::from("a")),
                DynamicValue::Str(String::from("b")),
            ]),
        ),
    ]);
    let expected = RestrictedExpr::Record(vec![
        (String::from("admin"), RestrictedExpr::Bool(true)),
        (
            String::from("tags"),
            RestrictedExpr::SetValue(vec![
                RestrictedExpr::Str(String::from("a")),
                RestrictedExpr::Str(String::from("b")),
            ]),
        ),
    ]);
    assert_eq!(to_restricted(&value), Ok(expected));
}

#[test]
fn sequence_order_is_preserved() {
    let value = DynamicValue::Sequence(vec![
        DynamicValue::Int64(3),
        DynamicValue::Int64(1),
        DynamicValue::Int64(2),
    ]);
    assert_eq!(
        to_restricted(&value),
        Ok(RestrictedExpr::SetValue(vec![
            RestrictedExpr::Int64(3),
            RestrictedExpr::Int64(1),
            RestrictedExpr::Int64(2),
        ]))
    );
}

#[test]
fn nested_error_is_first_in_depth_first_order() {
    let value = DynamicValue::Sequence(vec![
        DynamicValue::Mapping(vec![(String::from("x"), DynamicValue::Float64(None))]),
        DynamicValue::Null,
    ]);
    assert_eq!(
        to_restricted(&value),
        Err(ConversionError::NonIntegerNumber)
    );
}
