use roaring::RoaringBitmap;
use sui_serde::bitmap::SuiBitmap;
use sui_serde::readable::DeserializeAs;
use sui_serde::readable::SerializeAs;
use sui_serde::wire::FormatMode;
use sui_serde::wire::WireValue;

fn encode(b: &RoaringBitmap) -> WireValue {
    <SuiBitmap as SerializeAs<RoaringBitmap>>::serialize_as(b, FormatMode::Binary)
        .expect("bitmap encoding succeeds")
}

fn decode(w: &WireValue) -> Result<RoaringBitmap, sui_serde::error::CodecError> {
    <SuiBitmap as DeserializeAs<RoaringBitmap>>::deserialize_as(w, FormatMode::Binary)
}

#[test]
fn empty_bitmap_round_trips() {
    let b = RoaringBitmap::new();
    let w = encode(&b);
    let back = decode(&w).expect("round trip");
    assert!(back.is_empty());
    assert_eq!(back, b);
}

#[test]
fn bitmap_values_round_trip() {
    let mut b = RoaringBitmap::new();
    b.insert(1);
    b.insert(1000);
    b.insert(1_000_000);
    let w = encode(&b);
    let back = decode(&w).expect("round trip");
    assert_eq!(back, b);
    let values: Vec<u32> = back.iter().collect();
    assert_eq!(values, vec![1, 1000, 1_000_000]);
}

#[test]
fn corrupted_bytes_fail_to_decode() {
    let mut b = RoaringBitmap::new();
    b.insert(1);
    b.insert(1000);
    b.insert(1_000_000);
    let bytes = match encode(&b) {
        WireValue::Bytes(bytes) => bytes,
        _ => panic!("bitmap encoding must be a byte string"),
    };
    let mut corrupted = bytes.clone();
    corrupted[0] ^= 0xff;
    let r = decode(&WireValue::Bytes(corrupted));
    assert!(r.is_err(), "a corrupted blob must be rejected, not reinterpreted");
}

#[test]
fn bitmap_encoding_is_same_in_both_modes() {
    let mut b = RoaringBitmap::new();
    b.insert(7);
    let w1 = <SuiBitmap as SerializeAs<RoaringBitmap>>::serialize_as(
        &b,
        FormatMode::HumanReadable,
    )
    .unwrap();
    let w2 = <SuiBitmap as SerializeAs<RoaringBitmap>>::serialize_as(&b, FormatMode::Binary)
        .unwrap();
    match (w1, w2) {
        (WireValue::Bytes(b1), WireValue::Bytes(b2)) => assert_eq!(b1, b2),
        _ => panic!("bitmap encoding must be a byte string in both modes"),
    }
}

#[test]
fn bitmap_rejects_non_byte_token() {
    let r = decode(&WireValue::Text(String::from("not bytes")));
    assert!(r.is_err());
}
