use supervisor::lua::{
    decode_lua_boolean, decode_lua_number, decode_lua_string, decode_lua_table,
    decode_lua_usertype, read_lua_table_with_string_key_and_string_value, LuaDecodeError,
    LuaNumber, LuaType,
};

fn number_bytes(mantissa: i64, exponent: i32) -> Vec<u8> {
    let mut b = mantissa.to_be_bytes().to_vec();
    b.extend_from_slice(&exponent.to_be_bytes());
    b
}

#[test]
fn boolean_decodes_zero_and_nonzero() {
    assert_eq!(
        decode_lua_boolean(&vec![0], 0),
        Ok((LuaType::Boolean(false), 1))
    );
    assert_eq!(
        decode_lua_boolean(&vec![7], 0),
        Ok((LuaType::Boolean(true), 1))
    );
    assert_eq!(
        decode_lua_boolean(&Vec::new(), 0),
        Err(LuaDecodeError::Boolean)
    );
}

#[test]
fn number_decodes_mantissa_and_exponent() {
    let mut wire = number_bytes(1, 2);
    wire.push(0); // a number needs more bytes remaining than it occupies
    assert_eq!(
        decode_lua_number(&wire, 0),
        Ok((LuaType::Number(LuaNumber { mantissa: 1, exponent: 2 }), 12))
    );
}

#[test]
fn number_decodes_negative_mantissa() {
    let mut wire = number_bytes(-5, -1);
    wire.push(0);
    assert_eq!(
        decode_lua_number(&wire, 0),
        Ok((LuaType::Number(LuaNumber { mantissa: -5, exponent: -1 }), 12))
    );
}

#[test]
fn number_with_exactly_twelve_bytes_is_short() {
    let wire = number_bytes(1, 2);
    assert_eq!(decode_lua_number(&wire, 0), Err(LuaDecodeError::Number));
}

#[test]
fn string_ends_at_nul_or_buffer_end() {
    let wire = b"hi\0rest".to_vec();
    assert_eq!(
        decode_lua_string(&wire, 0),
        Ok((LuaType::Text(String::from("hi")), 3))
    );
    let wire = b"hi".to_vec();
    assert_eq!(
        decode_lua_string(&wire, 0),
        Ok((LuaType::Text(String::from("hi")), 2))
    );
}

#[test]
fn string_with_invalid_bytes_fails() {
    let wire = vec![0xFF, 0xFE, 0];
    assert_eq!(decode_lua_string(&wire, 0), Err(LuaDecodeError::Text));
}

#[test]
fn usertype_decodes_vector2() {
    let mut wire = vec![1u8];
    wire.extend_from_slice(&number_bytes(1, 0));
    wire.extend_from_slice(&number_bytes(-2, 3));
    wire.push(0);
    assert_eq!(
        decode_lua_usertype(&wire, 0),
        Ok((
            LuaType::Vector2(
                LuaNumber { mantissa: 1, exponent: 0 },
                LuaNumber { mantissa: -2, exponent: 3 },
            ),
            25
        ))
    );
}

#[test]
fn usertype_with_unknown_tag_fails() {
    assert_eq!(
        decode_lua_usertype(&vec![9, 0, 0], 0),
        Err(LuaDecodeError::UserType)
    );
    assert_eq!(
        decode_lua_usertype(&Vec::new(), 0),
        Err(LuaDecodeError::UserType)
    );
}

#[test]
fn table_of_strings_decodes() {
    let mut wire = Vec::new();
    wire.push(4u8); // string key
    wire.extend_from_slice(b"fromS\0");
    wire.push(4u8); // string value
    wire.extend_from_slice(b"drone1\0");
    wire.push(0u8); // nil closes the table
    let (table, end) = decode_lua_table(&wire, 0).expect("table should decode");
    assert_eq!(end, wire.len());
    assert_eq!(
        table,
        LuaType::Table(vec![(
            LuaType::Text(String::from("fromS")),
            LuaType::Text(String::from("drone1")),
        )])
    );
}

#[test]
fn table_closes_at_buffer_end_without_nil() {
    let mut wire = Vec::new();
    wire.push(4u8);
    wire.extend_from_slice(b"k\0");
    wire.push(1u8); // boolean value
    wire.push(1u8);
    let (table, end) = decode_lua_table(&wire, 0).expect("table should decode");
    assert_eq!(end, wire.len());
    assert_eq!(
        table,
        LuaType::Table(vec![(LuaType::Text(String::from("k")), LuaType::Boolean(true))])
    );
}

#[test]
fn empty_table_is_a_single_nil() {
    assert_eq!(
        decode_lua_table(&vec![0], 0),
        Ok((LuaType::Table(Vec::new()), 1))
    );
    assert_eq!(
        decode_lua_table(&Vec::new(), 0),
        Ok((LuaType::Table(Vec::new()), 0))
    );
}

#[test]
fn table_with_missing_value_fails() {
    let mut wire = Vec::new();
    wire.push(4u8);
    wire.extend_from_slice(b"k\0");
    assert_eq!(decode_lua_table(&wire, 0), Err(LuaDecodeError::Value));
}

#[test]
fn table_with_unknown_key_tag_fails() {
    assert_eq!(decode_lua_table(&vec![9, 1, 1], 0), Err(LuaDecodeError::Key));
}

#[test]
fn lookup_finds_first_text_value() {
    let table = LuaType::Table(vec![
        (LuaType::Boolean(true), LuaType::Text(String::from("skipped"))),
        (LuaType::Text(String::from("toS")), LuaType::Text(String::from("pipuck2"))),
        (LuaType::Text(String::from("toS")), LuaType::Text(String::from("later"))),
    ]);
    assert_eq!(
        read_lua_table_with_string_key_and_string_value(&table, String::from("toS")),
        "pipuck2"
    );
}

#[test]
fn lookup_misses_yield_nil() {
    let table = LuaType::Table(vec![(
        LuaType::Text(String::from("fromS")),
        LuaType::Text(String::from("drone1")),
    )]);
    assert_eq!(
        read_lua_table_with_string_key_and_string_value(&table, String::from("toS")),
        "nil"
    );
    // A matching key whose value is no text also reads as nil.
    let table = LuaType::Table(vec![(
        LuaType::Text(String::from("toS")),
        LuaType::Boolean(true),
    )]);
    assert_eq!(
        read_lua_table_with_string_key_and_string_value(&table, String::from("toS")),
        "nil"
    );
    // So does looking into a value that is no table.
    assert_eq!(
        read_lua_table_with_string_key_and_string_value(
            &LuaType::Boolean(false),
            String::from("toS")
        ),
        "nil"
    );
}
