use spi::{bind, decode, encode, parameter_for, Argument, EncodedValue, NativeValue, SpiError, TypeTag};

fn text(s: &str) -> NativeValue {
    NativeValue::Text(s.to_string())
}

#[test]
fn an_empty_list_binds_to_an_empty_list() {
    let arguments: Vec<Argument> = Vec::new();
    assert_eq!(bind(&arguments), Ok(Vec::new()));
}

#[test]
fn bind_keeps_length_and_order() {
    let arguments: Vec<Argument> = vec![
        (TypeTag::Text, Some(text("A"))),
        (TypeTag::Int8, Some(NativeValue::Int8(2))),
        (TypeTag::Bool, Some(NativeValue::Bool(true))),
    ];
    let bound = bind(&arguments).unwrap();
    assert_eq!(bound.len(), 3);
    assert_eq!(bound[0].tag(), TypeTag::Text);
    assert_eq!(bound[0].value(), &encode(&text("A")));
    assert_eq!(bound[1].tag(), TypeTag::Int8);
    assert_eq!(bound[1].value(), &encode(&NativeValue::Int8(2)));
    assert_eq!(bound[2].tag(), TypeTag::Bool);
    assert_eq!(bound[2].value(), &encode(&NativeValue::Bool(true)));
}

#[test]
fn placeholders_select_by_position() {
    let arguments: Vec<Argument> = vec![
        (TypeTag::Text, Some(text("A"))),
        (TypeTag::Text, Some(text("B"))),
    ];
    let bound = bind(&arguments).unwrap();
    let first = parameter_for(&bound, 1).unwrap();
    let second = parameter_for(&bound, 2).unwrap();
    assert_eq!(decode(first.value(), TypeTag::Text), Ok(Some(text("A"))));
    assert_eq!(decode(second.value(), TypeTag::Text), Ok(Some(text("B"))));
}

#[test]
fn swapping_arguments_swaps_what_the_placeholders_select() {
    let arguments: Vec<Argument> = vec![
        (TypeTag::Text, Some(text("B"))),
        (TypeTag::Int8, Some(NativeValue::Int8(1))),
    ];
    let bound = bind(&arguments).unwrap();
    assert_eq!(decode(parameter_for(&bound, 1).unwrap().value(), TypeTag::Text), Ok(Some(text("B"))));
    assert_eq!(
        decode(parameter_for(&bound, 2).unwrap().value(), TypeTag::Int8),
        Ok(Some(NativeValue::Int8(1)))
    );
}

#[test]
fn every_placeholder_decodes_to_its_argument() {
    let arguments: Vec<Argument> = vec![
        (TypeTag::Int2, Some(NativeValue::Int2(-5))),
        (TypeTag::Text, None),
        (TypeTag::Oid, Some(NativeValue::Oid(26))),
        (TypeTag::Int4, Some(NativeValue::Int4(i32::MIN))),
        (TypeTag::Text, Some(text("I like pudding"))),
    ];
    let bound = bind(&arguments).unwrap();
    for number in 1..=arguments.len() {
        let parameter = parameter_for(&bound, number).unwrap();
        let (declared, value) = &arguments[number - 1];
        assert_eq!(parameter.tag(), *declared);
        assert_eq!(decode(parameter.value(), *declared), Ok(value.clone()));
    }
}

#[test]
fn there_is_no_placeholder_zero_and_none_past_the_list() {
    let arguments: Vec<Argument> = vec![(TypeTag::Int8, Some(NativeValue::Int8(1)))];
    let bound = bind(&arguments).unwrap();
    assert!(parameter_for(&bound, 0).is_none());
    assert!(parameter_for(&bound, 1).is_some());
    assert!(parameter_for(&bound, 2).is_none());
    assert!(parameter_for(&bound, usize::MAX).is_none());
    assert!(parameter_for(&Vec::new(), 1).is_none());
}

#[test]
fn an_absent_value_binds_to_null_of_the_declared_tag() {
    let arguments: Vec<Argument> = vec![(TypeTag::Int8, None), (TypeTag::Text, None)];
    let bound = bind(&arguments).unwrap();
    assert_eq!(bound[0].tag(), TypeTag::Int8);
    assert_eq!(bound[0].value(), &EncodedValue::null(TypeTag::Int8));
    assert_eq!(bound[1].tag(), TypeTag::Text);
    assert!(bound[1].value().is_null());
    assert_eq!(decode(bound[1].value(), TypeTag::Text), Ok(None));
}

#[test]
fn a_value_of_another_type_than_declared_is_an_encoding_error() {
    let arguments: Vec<Argument> = vec![(TypeTag::Text, Some(NativeValue::Int8(1)))];
    assert_eq!(bind(&arguments), Err(SpiError::EncodingError));
    let arguments: Vec<Argument> = vec![(TypeTag::Int8, Some(NativeValue::Int4(1)))];
    assert_eq!(bind(&arguments), Err(SpiError::EncodingError));
}

#[test]
fn one_bad_argument_fails_the_whole_list() {
    let arguments: Vec<Argument> = vec![
        (TypeTag::Text, Some(text("fine"))),
        (TypeTag::Int8, None),
        (TypeTag::Bool, Some(NativeValue::Oid(1))),
        (TypeTag::Int8, Some(NativeValue::Int8(1))),
    ];
    assert_eq!(bind(&arguments), Err(SpiError::EncodingError));
}
