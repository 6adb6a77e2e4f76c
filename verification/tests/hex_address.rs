use sui_serde::address::AccountAddress;
use sui_serde::address::HexAccountAddress;
use sui_serde::readable::DeserializeAs;
use sui_serde::readable::SerializeAs;
use sui_serde::wire::FormatMode;
use sui_serde::wire::WireValue;

fn decode_text(s: &str) -> Result<AccountAddress, sui_serde::error::CodecError> {
    let w = WireValue::Text(String::from(s));
    <HexAccountAddress as DeserializeAs<AccountAddress>>::deserialize_as(
        &w,
        FormatMode::HumanReadable,
    )
}

fn encode(a: &AccountAddress) -> WireValue {
    <HexAccountAddress as SerializeAs<AccountAddress>>::serialize_as(a, FormatMode::HumanReadable)
        .expect("encoding is total")
}

#[test]
fn zero_address_decodes_with_and_without_prefix() {
    let with_prefix = decode_text("0x00").expect("prefixed zero");
    let without_prefix = decode_text("00").expect("bare zero");
    let zero = AccountAddress::zero();
    assert!(with_prefix.equals(&zero));
    assert!(without_prefix.equals(&zero));
    assert!(with_prefix.equals(&without_prefix));
}

#[test]
fn short_hex_is_left_padded() {
    let a = decode_text("0x0102").expect("short hex");
    let mut expected = vec![0u8; 30];
    expected.push(1);
    expected.push(2);
    assert_eq!(a.as_bytes(), &expected);
}

#[test]
fn odd_length_fails() {
    assert!(decode_text("0x123").is_err());
    assert!(decode_text("123").is_err());
    assert!(decode_text("0").is_err());
}

#[test]
fn non_hex_characters_fail() {
    assert!(decode_text("0xzz").is_err());
    assert!(decode_text("zz").is_err());
    assert!(decode_text("0x0g").is_err());
}

#[test]
fn empty_hex_fails() {
    assert!(decode_text("").is_err());
    assert!(decode_text("0x").is_err());
}

#[test]
fn over_long_hex_fails() {
    let long = "a".repeat(66);
    assert!(decode_text(&long).is_err());
}

#[test]
fn uppercase_hex_is_accepted() {
    let upper = decode_text("0xAB").expect("uppercase hex");
    let lower = decode_text("0xab").expect("lowercase hex");
    assert!(upper.equals(&lower));
}

#[test]
fn encoding_is_prefixed_full_length_lowercase() {
    let bytes: Vec<u8> = (0u8..32).collect();
    let a = AccountAddress::from_bytes(bytes).expect("32 bytes");
    match encode(&a) {
        WireValue::Text(s) => {
            assert_eq!(s.len(), 66);
            assert!(s.starts_with("0x"));
            assert_eq!(
                s,
                "0x000102030405060708090a0b0c0d0e0f101112131415161718191a1b1c1d1e1f"
            );
        },
        _ => panic!("hex address encoding must be a string"),
    }
}

#[test]
fn address_round_trips_through_hex() {
    let bytes: Vec<u8> = (100u8..132).collect();
    let a = AccountAddress::from_bytes(bytes).expect("32 bytes");
    let w = encode(&a);
    let back = <HexAccountAddress as DeserializeAs<AccountAddress>>::deserialize_as(
        &w,
        FormatMode::Binary,
    )
    .expect("round trip");
    assert!(back.equals(&a));
}

#[test]
fn address_rejects_wrong_byte_count() {
    assert!(AccountAddress::from_bytes(vec![0u8; 31]).is_err());
    assert!(AccountAddress::from_bytes(vec![0u8; 33]).is_err());
    assert!(AccountAddress::from_bytes(vec![0u8; 32]).is_ok());
}

#[test]
fn address_rejects_non_text_token() {
    let w = WireValue::Bytes(vec![0u8; 32]);
    let r = <HexAccountAddress as DeserializeAs<AccountAddress>>::deserialize_as(
        &w,
        FormatMode::HumanReadable,
    );
    assert!(r.is_err());
}
