use sui_serde::bigint::BigInt;
use sui_serde::bigint::Native;
use sui_serde::readable::DeserializeAs;
use sui_serde::readable::Readable;
use sui_serde::readable::SerializeAs;
use sui_serde::wire::FormatMode;
use sui_serde::wire::WireValue;

type U64Codec = Readable<BigInt<u64>, Native>;

fn encode(v: u64, mode: FormatMode) -> WireValue {
    <U64Codec as SerializeAs<u64>>::serialize_as(&v, mode).expect("encoding is total")
}

fn decode(w: &WireValue, mode: FormatMode) -> Result<u64, sui_serde::error::CodecError> {
    <U64Codec as DeserializeAs<u64>>::deserialize_as(w, mode)
}

#[test]
fn round_trip_u64_human() {
    for v in [0u64, 1, 9, 10, 42, 1_000_000, u64::MAX - 1, u64::MAX] {
        let w = encode(v, FormatMode::HumanReadable);
        let back = decode(&w, FormatMode::HumanReadable).expect("round trip");
        assert_eq!(back, v);
    }
}

#[test]
fn round_trip_u64_binary() {
    for v in [0u64, 1, 9, 10, 42, 1_000_000, u64::MAX - 1, u64::MAX] {
        let w = encode(v, FormatMode::Binary);
        let back = decode(&w, FormatMode::Binary).expect("round trip");
        assert_eq!(back, v);
    }
}

#[test]
fn human_encoding_is_canonical_decimal() {
    let cases: [(u64, &str); 4] = [
        (0, "0"),
        (7, "7"),
        (1234567890, "1234567890"),
        (u64::MAX, "18446744073709551615"),
    ];
    for (v, expected) in cases {
        match encode(v, FormatMode::HumanReadable) {
            WireValue::Text(s) => assert_eq!(s, expected),
            _ => panic!("human-readable encoding must be a string"),
        }
    }
}

#[test]
fn binary_encoding_is_native_number() {
    match encode(u64::MAX, FormatMode::Binary) {
        WireValue::U64(n) => assert_eq!(n, u64::MAX),
        _ => panic!("binary encoding must be a native number"),
    }
}

#[test]
fn mode_purity_never_mixes_representations() {
    for v in [0u64, 5, u64::MAX] {
        assert!(matches!(encode(v, FormatMode::HumanReadable), WireValue::Text(_)));
        assert!(matches!(encode(v, FormatMode::Binary), WireValue::U64(_)));
    }
}

#[test]
fn parse_accepts_standard_literals() {
    let w = WireValue::Text(String::from("042"));
    assert_eq!(decode(&w, FormatMode::HumanReadable).unwrap(), 42);
    let w = WireValue::Text(String::from("+42"));
    assert_eq!(decode(&w, FormatMode::HumanReadable).unwrap(), 42);
}

#[test]
fn parse_rejects_malformed_literals() {
    for s in ["", "+", "abc", "1x", "-1", "4 2", "18446744073709551616"] {
        let w = WireValue::Text(String::from(s));
        assert!(decode(&w, FormatMode::HumanReadable).is_err(), "{:?} must fail", s);
    }
}

#[test]
fn human_path_rejects_native_token() {
    let w = WireValue::U64(7);
    assert!(decode(&w, FormatMode::HumanReadable).is_err());
}

#[test]
fn binary_path_rejects_string_token() {
    let w = WireValue::Text(String::from("7"));
    assert!(decode(&w, FormatMode::Binary).is_err());
}

#[test]
fn schema_type_is_string() {
    assert_eq!(BigInt::<u64>::schema_type(), "string");
}

#[test]
fn bigint_wraps_transparently() {
    let b = BigInt::from(99u64);
    assert_eq!(b.value(), 99);
    assert_eq!(b.to_text(), "99");
    assert_eq!(b, BigInt::new(99u64));
}
