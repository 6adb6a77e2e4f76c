use move_core_types::language_storage::StructTag;
use move_core_types::language_storage::TypeTag;
use sui_serde::readable::DeserializeAs;
use sui_serde::readable::SerializeAs;
use sui_serde::tags::SuiStructTag;
use sui_serde::tags::SuiTypeTag;
use sui_serde::wire::FormatMode;
use sui_serde::wire::WireValue;

fn decode_struct(s: &str) -> Result<StructTag, sui_serde::error::CodecError> {
    let w = WireValue::Text(String::from(s));
    <SuiStructTag as DeserializeAs<StructTag>>::deserialize_as(&w, FormatMode::HumanReadable)
}

fn decode_type(s: &str) -> Result<TypeTag, sui_serde::error::CodecError> {
    let w = WireValue::Text(String::from(s));
    <SuiTypeTag as DeserializeAs<TypeTag>>::deserialize_as(&w, FormatMode::HumanReadable)
}

fn encode_struct(t: &StructTag) -> String {
    match <SuiStructTag as SerializeAs<StructTag>>::serialize_as(t, FormatMode::HumanReadable)
        .expect("encoding succeeds")
    {
        WireValue::Text(s) => s,
        _ => panic!("identifier encoding must be a string"),
    }
}

fn encode_type(t: &TypeTag) -> String {
    match <SuiTypeTag as SerializeAs<TypeTag>>::serialize_as(t, FormatMode::HumanReadable)
        .expect("encoding succeeds")
    {
        WireValue::Text(s) => s,
        _ => panic!("identifier encoding must be a string"),
    }
}

#[test]
fn struct_tag_round_trips_through_its_string_form() {
    let original = decode_struct("0x1::Coin::Coin<0x2::Token::Token>").expect("valid identifier");
    let rendered = encode_struct(&original);
    let back = decode_struct(&rendered).expect("stringified identifier parses");
    assert_eq!(back, original);
}

#[test]
fn type_tag_round_trips_through_its_string_form() {
    let original = decode_type("0x1::Account::Balance").expect("valid identifier");
    let rendered = encode_type(&original);
    let back = decode_type(&rendered).expect("stringified identifier parses");
    assert_eq!(back, original);
}

#[test]
fn unbalanced_brackets_fail_to_parse() {
    assert!(decode_struct("0x1::Coin::Coin<0x2::Token::Token").is_err());
    assert!(decode_type("0x1::Coin::Coin<0x2::Token::Token").is_err());
    assert!(decode_type("vector<u8").is_err());
}

#[test]
fn primitive_type_tags_parse() {
    assert_eq!(decode_type("u64").unwrap(), TypeTag::U64);
    assert_eq!(decode_type("bool").unwrap(), TypeTag::Bool);
    assert!(matches!(decode_type("vector<u8>").unwrap(), TypeTag::Vector(_)));
}

#[test]
fn struct_adapter_rejects_primitive_identifier() {
    assert!(decode_struct("u64").is_err());
}

#[test]
fn garbage_identifiers_fail_to_parse() {
    assert!(decode_struct("not an identifier").is_err());
    assert!(decode_type("::::").is_err());
    assert!(decode_struct("").is_err());
}

#[test]
fn tag_adapters_reject_non_text_tokens() {
    let w = WireValue::U64(3);
    assert!(
        <SuiStructTag as DeserializeAs<StructTag>>::deserialize_as(&w, FormatMode::Binary)
            .is_err()
    );
    let w = WireValue::Bytes(vec![1, 2, 3]);
    assert!(
        <SuiTypeTag as DeserializeAs<TypeTag>>::deserialize_as(&w, FormatMode::Binary).is_err()
    );
}
