use aegis_gl::{extract_f32_vec, extract_u8_vec, c_string, ExtractError, Kind, Number, Value};

fn text(s: &str) -> Value {
    Value::String(s.to_string())
}

fn float(x: f64) -> Value {
    Value::Float(x.to_bits())
}

#[test]
fn kind_names_each_variant() {
    assert_eq!(Value::Null.kind(), Kind::Null);
    assert_eq!(Value::Boolean(false).kind(), Kind::Boolean);
    assert_eq!(Value::Integer(0).kind(), Kind::Integer);
    assert_eq!(float(0.0).kind(), Kind::Float);
    assert_eq!(text("").kind(), Kind::String);
    assert_eq!(Value::List(vec![]).kind(), Kind::List);
}

#[test]
fn as_int_takes_integers_only() {
    assert_eq!(Value::Integer(-7).as_int(), Ok(-7));
    assert_eq!(Value::Integer(i64::MAX).as_int(), Ok(i64::MAX));
    let mismatch = Err(ExtractError::TypeMismatch { expected: Kind::Integer });
    assert_eq!(Value::Null.as_int(), mismatch);
    assert_eq!(Value::Boolean(true).as_int(), mismatch);
    assert_eq!(float(1.0).as_int(), mismatch);
    assert_eq!(text("1").as_int(), mismatch);
    assert_eq!(Value::List(vec![Value::Integer(1)]).as_int(), mismatch);
}

#[test]
fn as_float_takes_integers_and_floats() {
    assert_eq!(float(2.5).as_float(), Ok(Number::Float(2.5f64.to_bits())));
    assert_eq!(Value::Integer(3).as_float(), Ok(Number::Integer(3)));
    let mismatch = Err(ExtractError::TypeMismatch { expected: Kind::Float });
    assert_eq!(Value::Null.as_float(), mismatch);
    assert_eq!(Value::Boolean(true).as_float(), mismatch);
    assert_eq!(text("2.5").as_float(), mismatch);
    assert_eq!(Value::List(vec![]).as_float(), mismatch);
}

#[test]
fn as_float_keeps_the_bits_of_a_float() {
    let nan = f64::NAN.to_bits();
    assert_eq!(Value::Float(nan).as_float(), Ok(Number::Float(nan)));
    let negative_zero = (-0.0f64).to_bits();
    assert_eq!(Value::Float(negative_zero).as_float(), Ok(Number::Float(negative_zero)));
}

#[test]
fn as_bool_takes_booleans_only() {
    assert_eq!(Value::Boolean(true).as_bool(), Ok(true));
    assert_eq!(Value::Boolean(false).as_bool(), Ok(false));
    let mismatch = Err(ExtractError::TypeMismatch { expected: Kind::Boolean });
    assert_eq!(Value::Integer(1).as_bool(), mismatch);
    assert_eq!(Value::Null.as_bool(), mismatch);
    assert_eq!(text("true").as_bool(), mismatch);
}

#[test]
fn as_str_takes_text_only() {
    assert_eq!(text("abc").as_str(), Ok("abc"));
    assert_eq!(text("").as_str(), Ok(""));
    let mismatch = Err(ExtractError::TypeMismatch { expected: Kind::String });
    assert_eq!(Value::Integer(1).as_str(), mismatch);
    assert_eq!(Value::Null.as_str(), mismatch);
    assert_eq!(Value::List(vec![text("a")]).as_str(), mismatch);
}

#[test]
fn to_u32_keeps_the_low_32_bits() {
    assert_eq!(Value::Integer(0).to_u32(), Ok(0));
    assert_eq!(Value::Integer(35633).to_u32(), Ok(35633));
    assert_eq!(Value::Integer(4294967295).to_u32(), Ok(u32::MAX));
    assert_eq!(Value::Integer(4294967296).to_u32(), Ok(0));
    assert_eq!(Value::Integer(4294967301).to_u32(), Ok(5));
    assert_eq!(Value::Integer(-1).to_u32(), Ok(u32::MAX));
    assert_eq!(Value::Integer(i64::MIN).to_u32(), Ok(0));
    assert_eq!(
        text("1").to_u32(),
        Err(ExtractError::TypeMismatch { expected: Kind::Integer })
    );
}

#[test]
fn to_i32_keeps_the_low_32_bits() {
    assert_eq!(Value::Integer(-5).to_i32(), Ok(-5));
    assert_eq!(Value::Integer(2147483647).to_i32(), Ok(i32::MAX));
    assert_eq!(Value::Integer(2147483648).to_i32(), Ok(i32::MIN));
    assert_eq!(Value::Integer(4294967295).to_i32(), Ok(-1));
    assert_eq!(Value::Integer(4294967301).to_i32(), Ok(5));
    assert_eq!(
        float(1.0).to_i32(),
        Err(ExtractError::TypeMismatch { expected: Kind::Integer })
    );
}

#[test]
fn to_usize_keeps_the_low_bits_of_an_address() {
    assert_eq!(Value::Integer(4096).to_usize(), Ok(4096));
    assert_eq!(Value::Integer(-1).to_usize(), Ok(usize::MAX));
    assert_eq!(
        Value::Null.to_usize(),
        Err(ExtractError::TypeMismatch { expected: Kind::Integer })
    );
}

#[test]
fn to_native_bool_has_two_encodings() {
    assert_eq!(Value::Boolean(true).to_native_bool(), Ok(1));
    assert_eq!(Value::Boolean(false).to_native_bool(), Ok(0));
    assert_eq!(Value::Boolean(true).to_native_bool(), Ok(gl::TRUE));
    assert_eq!(Value::Boolean(false).to_native_bool(), Ok(gl::FALSE));
    assert_eq!(
        Value::Integer(1).to_native_bool(),
        Err(ExtractError::TypeMismatch { expected: Kind::Boolean })
    );
}

#[test]
fn float_buffer_keeps_length_and_order() {
    let list = Value::List(vec![float(1.5), Value::Integer(2), float(-3.25), Value::Integer(-4)]);
    assert_eq!(
        extract_f32_vec(&list),
        Ok(vec![
            Number::Float(1.5f64.to_bits()),
            Number::Integer(2),
            Number::Float((-3.25f64).to_bits()),
            Number::Integer(-4),
        ])
    );
}

#[test]
fn float_buffer_of_many_elements() {
    let mut items = Vec::new();
    let mut expected = Vec::new();
    for i in 0..1000i64 {
        if i % 3 == 0 {
            items.push(Value::Integer(i));
            expected.push(Number::Integer(i));
        } else {
            items.push(float(i as f64 * 0.5));
            expected.push(Number::Float((i as f64 * 0.5).to_bits()));
        }
    }
    let buffer = extract_f32_vec(&Value::List(items)).unwrap();
    assert_eq!(buffer.len(), 1000);
    assert_eq!(buffer, expected);
}

#[test]
fn float_buffer_of_empty_list_is_empty() {
    assert_eq!(extract_f32_vec(&Value::List(vec![])), Ok(vec![]));
}

#[test]
fn float_buffer_wants_a_list() {
    assert_eq!(extract_f32_vec(&float(1.0)), Err(ExtractError::NotAList));
    assert_eq!(extract_f32_vec(&Value::Integer(1)), Err(ExtractError::NotAList));
    assert_eq!(extract_f32_vec(&text("[1.0]")), Err(ExtractError::NotAList));
    assert_eq!(extract_f32_vec(&Value::Null), Err(ExtractError::NotAList));
}

#[test]
fn float_buffer_names_the_first_element_that_is_no_number() {
    let list = Value::List(vec![float(1.0), Value::Integer(2), text("3"), Value::Null]);
    assert_eq!(
        extract_f32_vec(&list),
        Err(ExtractError::ElementMismatch { index: 2, expected: Kind::Float })
    );
    let nested = Value::List(vec![Value::List(vec![float(1.0)])]);
    assert_eq!(
        extract_f32_vec(&nested),
        Err(ExtractError::ElementMismatch { index: 0, expected: Kind::Float })
    );
}

#[test]
fn byte_buffer_keeps_the_low_eight_bits() {
    let list = Value::List(vec![
        Value::Integer(0),
        Value::Integer(255),
        Value::Integer(256),
        Value::Integer(300),
        Value::Integer(-1),
        Value::Integer(-256),
    ]);
    assert_eq!(extract_u8_vec(&list), Ok(vec![0, 255, 0, 44, 255, 0]));
}

#[test]
fn byte_buffer_of_empty_list_is_empty() {
    assert_eq!(extract_u8_vec(&Value::List(vec![])), Ok(vec![]));
}

#[test]
fn byte_buffer_wants_a_list() {
    assert_eq!(extract_u8_vec(&Value::Integer(1)), Err(ExtractError::NotAList));
    assert_eq!(extract_u8_vec(&text("ab")), Err(ExtractError::NotAList));
}

#[test]
fn byte_buffer_names_the_index_of_a_text_element() {
    let list = Value::List(vec![Value::Integer(1), Value::Integer(2), text("x"), Value::Integer(4)]);
    assert_eq!(
        extract_u8_vec(&list),
        Err(ExtractError::ElementMismatch { index: 2, expected: Kind::Integer })
    );
}

#[test]
fn byte_buffer_names_index_zero_only_when_the_text_is_first() {
    let list = Value::List(vec![text("x"), Value::Integer(2)]);
    assert_eq!(
        extract_u8_vec(&list),
        Err(ExtractError::ElementMismatch { index: 0, expected: Kind::Integer })
    );
    let last = Value::List(vec![Value::Integer(1), Value::Integer(2), Value::Integer(3), text("x")]);
    assert_eq!(
        extract_u8_vec(&last),
        Err(ExtractError::ElementMismatch { index: 3, expected: Kind::Integer })
    );
}

#[test]
fn byte_buffer_does_not_take_floats() {
    let list = Value::List(vec![Value::Integer(1), float(2.0), text("x")]);
    assert_eq!(
        extract_u8_vec(&list),
        Err(ExtractError::ElementMismatch { index: 1, expected: Kind::Integer })
    );
}

#[test]
fn c_string_ends_in_one_null_byte() {
    assert_eq!(c_string("abc"), Ok(vec![97, 98, 99, 0]));
    assert_eq!(c_string(""), Ok(vec![0]));
    assert_eq!(c_string("#version 330 core\n"), Ok(b"#version 330 core\n\0".to_vec()));
}

#[test]
fn c_string_encodes_text_as_utf8() {
    assert_eq!(c_string("\u{e9}"), Ok(vec![0xC3, 0xA9, 0]));
    assert_eq!(c_string("\u{20ac}"), Ok(vec![0xE2, 0x82, 0xAC, 0]));
    assert_eq!(c_string("\u{1F600}"), Ok(vec![0xF0, 0x9F, 0x98, 0x80, 0]));
}

#[test]
fn c_string_turns_down_an_embedded_null() {
    assert_eq!(c_string("a\0b"), Err(ExtractError::Encoding));
    assert_eq!(c_string("\0"), Err(ExtractError::Encoding));
    assert_eq!(c_string("ab\0"), Err(ExtractError::Encoding));
    assert_eq!(c_string("\0ab"), Err(ExtractError::Encoding));
}

#[test]
fn c_string_round_trip_is_lossless_for_printable_ascii() {
    let mut printable = String::new();
    for code in 0x20u8..=0x7e {
        printable.push(code as char);
    }
    let bytes = c_string(&printable).unwrap();
    assert_eq!(bytes.len(), printable.len() + 1);
    assert_eq!(bytes[bytes.len() - 1], 0);
    let end = bytes.iter().position(|b| *b == 0).unwrap();
    assert_eq!(end, printable.len());
    let back = String::from_utf8(bytes[..end].to_vec()).unwrap();
    assert_eq!(Value::String(back), Value::String(printable));
}

#[test]
fn to_c_string_takes_text_only() {
    assert_eq!(text("u_color").to_c_string(), Ok(b"u_color\0".to_vec()));
    assert_eq!(
        Value::Integer(1).to_c_string(),
        Err(ExtractError::TypeMismatch { expected: Kind::String })
    );
    assert_eq!(text("u\0v").to_c_string(), Err(ExtractError::Encoding));
}

#[test]
fn clone_copies_a_value_with_its_lists() {
    let value = Value::List(vec![
        Value::Null,
        Value::Boolean(true),
        Value::Integer(-3),
        float(2.5),
        text("abc"),
        Value::List(vec![Value::Integer(1), Value::List(vec![])]),
    ]);
    let copy = value.clone();
    assert_eq!(copy, value);
    assert_eq!(Value::Integer(4).clone(), Value::Integer(4));
    assert_eq!(text("x").clone(), text("x"));
}
