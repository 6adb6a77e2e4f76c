//! The compact bitmap codec.
//!
//! A bitmap is carried on the wire as one opaque byte-string token holding
//! its serialization in the published Roaring on-disk format; that byte
//! layout is the bitmap library's own and is relied on, not restated here.

use vstd::prelude::*;

use crate::error::CodecError;
use crate::error::to_custom_error;
use crate::error::to_custom_ser_error;
use crate::readable::DeserializeAs;
use crate::readable::SerializeAs;
use crate::wire::FormatMode;
use crate::wire::WireForm;
use crate::wire::WireValue;

verus! {

#[verifier::external_type_specification]
#[verifier::external_body]
pub struct ExRoaringBitmap(roaring::RoaringBitmap);

/// The set of 32-bit values a bitmap holds.
pub uninterp spec fn bitmap_elems(b: roaring::RoaringBitmap) -> Set<u32>;

/// The exact byte string `serialize_into` writes for a bitmap — its
/// serialization in the standard Roaring on-disk format, a deterministic
/// function of the bitmap alone.
pub uninterp spec fn roaring_bytes(b: roaring::RoaringBitmap) -> Seq<u8>;

/// What reading a byte string in the Roaring on-disk format yields: the
/// set of values its leading encoding holds, or nothing if the bytes do
/// not begin with a valid encoding.
pub uninterp spec fn roaring_parse(bytes: Seq<u8>) -> Option<Set<u32>>;

/// Relies on roaring's `RoaringBitmap::serialize_into`: it writes the
/// bitmap's serialization in the standard Roaring on-disk format, a
/// deterministic function of the bitmap; errors come from the writer
/// alone (a byte vector's never fails); and `deserialize_from` reads the
/// written bytes back as an equal bitmap.
#[verifier::external_body]
fn bitmap_to_bytes(b: &roaring::RoaringBitmap) -> (r: Result<Vec<u8>, String>)
    ensures
        (r matches Ok(bytes) ==> bytes@ == roaring_bytes(*b)),
        (r matches Ok(bytes) ==> roaring_parse(bytes@) == Some(bitmap_elems(*b))),
        r is Ok,
{
    let mut bytes = vec![];
    match b.serialize_into(&mut bytes) {
        Ok(()) => Ok(bytes),
        Err(e) => Err(format!("{:?}", e)),
    }
}

/// Relies on roaring's `RoaringBitmap::deserialize_from`: it reads a byte
/// string in the standard Roaring on-disk format, validating it, and
/// rejects bytes that are not such an encoding.
#[verifier::external_body]
fn bitmap_from_bytes(bytes: &Vec<u8>) -> (r: Result<roaring::RoaringBitmap, String>)
    ensures
        match r {
            Ok(b) => roaring_parse(bytes@) == Some(bitmap_elems(b)),
            Err(_) => roaring_parse(bytes@) is None,
        },
{
    roaring::RoaringBitmap::deserialize_from(&bytes[..]).map_err(|e| format!("{:?}", e))
}

/// Byte-blob adapter for `roaring::RoaringBitmap`: the same serialized
/// byte layout serves every format mode.
pub struct SuiBitmap;

impl SerializeAs<roaring::RoaringBitmap> for SuiBitmap {
    open spec fn ser_total() -> bool {
        true
    }

    open spec fn ser_ok(v: roaring::RoaringBitmap, mode: FormatMode, w: WireForm) -> bool {
        w == WireForm::Bytes(roaring_bytes(v)) && roaring_parse(roaring_bytes(v)) == Some(
            bitmap_elems(v),
        )
    }

    fn serialize_as(source: &roaring::RoaringBitmap, mode: FormatMode) -> (r: Result<
        WireValue,
        CodecError,
    >) {
        match bitmap_to_bytes(source) {
            Ok(bytes) => Ok(WireValue::Bytes(bytes)),
            Err(e) => Err(to_custom_ser_error(e.as_str())),
        }
    }
}

impl DeserializeAs<roaring::RoaringBitmap> for SuiBitmap {
    open spec fn de_ok(w: WireForm, mode: FormatMode, v: roaring::RoaringBitmap) -> bool {
        w matches WireForm::Bytes(bytes) && roaring_parse(bytes) == Some(bitmap_elems(v))
    }

    open spec fn de_err(w: WireForm, mode: FormatMode) -> bool {
        !(w matches WireForm::Bytes(bytes) && roaring_parse(bytes) is Some)
    }

    fn deserialize_as(wire: &WireValue, mode: FormatMode) -> (r: Result<
        roaring::RoaringBitmap,
        CodecError,
    >) {
        match wire {
            WireValue::Bytes(bytes) => match bitmap_from_bytes(bytes) {
                Ok(b) => Ok(b),
                Err(e) => Err(to_custom_error(e.as_str())),
            },
            _ => Err(to_custom_error("expected a byte string")),
        }
    }
}

/// Round-trip: a bitmap decoded from whatever the codec encoded holds
/// exactly the element set of the bitmap that was encoded.
pub proof fn lemma_bitmap_round_trip(
    b1: roaring::RoaringBitmap,
    b2: roaring::RoaringBitmap,
    mode: FormatMode,
    w: WireForm,
)
    requires
        <SuiBitmap as SerializeAs<roaring::RoaringBitmap>>::ser_ok(b1, mode, w),
        <SuiBitmap as DeserializeAs<roaring::RoaringBitmap>>::de_ok(w, mode, b2),
    ensures
        bitmap_elems(b2) == bitmap_elems(b1),
{
}

} // verus!
