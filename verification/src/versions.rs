//! Adapters for the sequence-number and protocol-version domain types.
//!
//! Both domain types are opaque newtypes over a 64-bit value; their
//! adapters put that value on the wire as its canonical decimal string,
//! the string-safe form text formats need, and read such a string back.

use vstd::prelude::*;

use crate::decimal::dec_str;
use crate::decimal::parse_u64_dec;
use crate::decimal::spec_parse_u64;
use crate::decimal::u64_to_dec_string;
use crate::error::CodecError;
use crate::error::to_custom_error;
use crate::readable::DeserializeAs;
use crate::readable::SerializeAs;
use crate::wire::FormatMode;
use crate::wire::WireForm;
use crate::wire::WireValue;

verus! {

/// What reading a wire token as a decimal-string-borne 64-bit value
/// yields: the parsed value of a string token, nothing for any other
/// token.
pub open spec fn spec_decode_u64_text(w: WireForm) -> Option<u64> {
    match w {
        WireForm::Text(s) => spec_parse_u64(s),
        _ => None,
    }
}

/// An object sequence number: an opaque newtype over a 64-bit value.
#[derive(Clone, Copy, Debug, PartialEq, Eq, Structural)]
pub struct SequenceNumber {
    value: u64,
}

impl View for SequenceNumber {
    type V = u64;

    closed spec fn view(&self) -> u64 {
        self.value
    }
}

impl SequenceNumber {
    /// Builds a sequence number from its value.
    pub fn from_u64(v: u64) -> (r: SequenceNumber)
        ensures
            r@ == v,
    {
        SequenceNumber { value: v }
    }

    /// Reads the value back.
    pub fn value(&self) -> (r: u64)
        ensures
            r == self@,
    {
        self.value
    }
}

impl SerializeAs<SequenceNumber> for SequenceNumber {
    open spec fn ser_total() -> bool {
        true
    }

    open spec fn ser_ok(v: SequenceNumber, mode: FormatMode, w: WireForm) -> bool {
        w == WireForm::Text(dec_str(v@ as nat))
    }

    fn serialize_as(value: &SequenceNumber, mode: FormatMode) -> (r: Result<
        WireValue,
        CodecError,
    >) {
        Ok(WireValue::Text(u64_to_dec_string(value.value)))
    }
}

impl DeserializeAs<SequenceNumber> for SequenceNumber {
    open spec fn de_ok(w: WireForm, mode: FormatMode, v: SequenceNumber) -> bool {
        spec_decode_u64_text(w) == Some(v@)
    }

    open spec fn de_err(w: WireForm, mode: FormatMode) -> bool {
        spec_decode_u64_text(w) is None
    }

    fn deserialize_as(wire: &WireValue, mode: FormatMode) -> (r: Result<
        SequenceNumber,
        CodecError,
    >) {
        match wire {
            WireValue::Text(s) => match parse_u64_dec(s.as_str()) {
                Ok(v) => Ok(SequenceNumber { value: v }),
                Err(e) => Err(e),
            },
            _ => Err(to_custom_error("expected a decimal string")),
        }
    }
}

/// A protocol version: an opaque newtype over a 64-bit value.
#[derive(Clone, Copy, Debug, PartialEq, Eq, Structural)]
pub struct ProtocolVersion {
    value: u64,
}

impl View for ProtocolVersion {
    type V = u64;

    closed spec fn view(&self) -> u64 {
        self.value
    }
}

impl ProtocolVersion {
    /// Builds a protocol version from its value.
    pub fn from_u64(v: u64) -> (r: ProtocolVersion)
        ensures
            r@ == v,
    {
        ProtocolVersion { value: v }
    }

    /// Reads the value back.
    pub fn as_u64(&self) -> (r: u64)
        ensures
            r == self@,
    {
        self.value
    }
}

/// Decimal-string adapter for [`ProtocolVersion`].
pub struct AsProtocolVersion;

impl SerializeAs<ProtocolVersion> for AsProtocolVersion {
    open spec fn ser_total() -> bool {
        true
    }

    open spec fn ser_ok(v: ProtocolVersion, mode: FormatMode, w: WireForm) -> bool {
        w == WireForm::Text(dec_str(v@ as nat))
    }

    fn serialize_as(value: &ProtocolVersion, mode: FormatMode) -> (r: Result<
        WireValue,
        CodecError,
    >) {
        Ok(WireValue::Text(u64_to_dec_string(value.value)))
    }
}

impl DeserializeAs<ProtocolVersion> for AsProtocolVersion {
    open spec fn de_ok(w: WireForm, mode: FormatMode, v: ProtocolVersion) -> bool {
        spec_decode_u64_text(w) == Some(v@)
    }

    open spec fn de_err(w: WireForm, mode: FormatMode) -> bool {
        spec_decode_u64_text(w) is None
    }

    fn deserialize_as(wire: &WireValue, mode: FormatMode) -> (r: Result<
        ProtocolVersion,
        CodecError,
    >) {
        match wire {
            WireValue::Text(s) => match parse_u64_dec(s.as_str()) {
                Ok(v) => Ok(ProtocolVersion { value: v }),
                Err(e) => Err(e),
            },
            _ => Err(to_custom_error("expected a decimal string")),
        }
    }
}

/// Round-trip: a sequence number decoded from whatever its adapter
/// encoded is the sequence number that was encoded, in every format mode.
pub proof fn lemma_sequence_number_round_trip(v: SequenceNumber, mode: FormatMode, w: WireForm)
    requires
        <SequenceNumber as SerializeAs<SequenceNumber>>::ser_ok(v, mode, w),
    ensures
        <SequenceNumber as DeserializeAs<SequenceNumber>>::de_ok(w, mode, v),
{
    crate::decimal::lemma_dec_round_trip(v@);
}

/// Round-trip: a protocol version decoded from whatever its adapter
/// encoded is the protocol version that was encoded, in every format mode.
pub proof fn lemma_protocol_version_round_trip(v: ProtocolVersion, mode: FormatMode, w: WireForm)
    requires
        <AsProtocolVersion as SerializeAs<ProtocolVersion>>::ser_ok(v, mode, w),
    ensures
        <AsProtocolVersion as DeserializeAs<ProtocolVersion>>::de_ok(w, mode, v),
{
    crate::decimal::lemma_dec_round_trip(v@);
}

} // verus!
