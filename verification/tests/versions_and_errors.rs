use sui_serde::error::to_custom_error;
use sui_serde::error::to_custom_ser_error;
use sui_serde::error::CodecError;
use sui_serde::readable::DeserializeAs;
use sui_serde::readable::SerializeAs;
use sui_serde::versions::AsProtocolVersion;
use sui_serde::versions::ProtocolVersion;
use sui_serde::versions::SequenceNumber;
use sui_serde::wire::FormatMode;
use sui_serde::wire::WireValue;

#[test]
fn sequence_number_round_trips_in_both_modes() {
    for mode in [FormatMode::HumanReadable, FormatMode::Binary] {
        let v = SequenceNumber::from_u64(123456789);
        let w = <SequenceNumber as SerializeAs<SequenceNumber>>::serialize_as(&v, mode)
            .expect("encoding succeeds");
        match &w {
            WireValue::Text(s) => assert_eq!(s, "123456789"),
            _ => panic!("sequence numbers ride as strings in every mode"),
        }
        let back = <SequenceNumber as DeserializeAs<SequenceNumber>>::deserialize_as(&w, mode)
            .expect("round trip");
        assert_eq!(back.value(), 123456789);
    }
}

#[test]
fn protocol_version_round_trips_in_both_modes() {
    for mode in [FormatMode::HumanReadable, FormatMode::Binary] {
        let v = ProtocolVersion::from_u64(u64::MAX);
        let w = <AsProtocolVersion as SerializeAs<ProtocolVersion>>::serialize_as(&v, mode)
            .expect("encoding succeeds");
        match &w {
            WireValue::Text(s) => assert_eq!(s, "18446744073709551615"),
            _ => panic!("protocol versions ride as strings in every mode"),
        }
        let back = <AsProtocolVersion as DeserializeAs<ProtocolVersion>>::deserialize_as(&w, mode)
            .expect("round trip");
        assert_eq!(back.as_u64(), u64::MAX);
    }
}

#[test]
fn sequence_number_rejects_native_and_byte_tokens() {
    for w in [WireValue::U64(7), WireValue::Bytes(vec![7])] {
        let r = <SequenceNumber as DeserializeAs<SequenceNumber>>::deserialize_as(
            &w,
            FormatMode::Binary,
        );
        assert!(r.is_err());
    }
}

#[test]
fn protocol_version_rejects_malformed_text() {
    let w = WireValue::Text(String::from("not a number"));
    let r =
        <AsProtocolVersion as DeserializeAs<ProtocolVersion>>::deserialize_as(&w, FormatMode::Binary);
    assert!(r.is_err());
}

#[test]
fn decode_errors_carry_a_shaped_message() {
    let e = to_custom_error("boom");
    match &e {
        CodecError::Deserialization { message } => {
            assert_eq!(message, "byte deserialization failed, caused by: boom");
        },
        _ => panic!("decode-side helper must build a deserialization error"),
    }
    assert_eq!(e.message(), "byte deserialization failed, caused by: boom");
}

#[test]
fn encode_errors_carry_a_shaped_message() {
    let e = to_custom_ser_error("disk full");
    match &e {
        CodecError::Serialization { message } => {
            assert_eq!(message, "byte serialization failed, caused by: disk full");
        },
        _ => panic!("encode-side helper must build a serialization error"),
    }
    assert_eq!(e.message(), "byte serialization failed, caused by: disk full");
}
