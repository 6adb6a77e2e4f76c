//! The lossless numeric codec.
//!
//! Text formats whose native number type cannot hold a full 64-bit range
//! (JSON, notably) receive such values as decimal strings instead. The
//! [`BigInt`] strategy renders a value as its canonical decimal string;
//! the [`Native`] strategy passes it as the format's native 64-bit number
//! token. Combined under the dispatcher, human-readable formats get the
//! string and binary formats the native number.

use vstd::prelude::*;

use crate::decimal::dec_str;
use crate::decimal::lemma_dec_round_trip;
use crate::decimal::parse_u64_dec;
use crate::decimal::spec_parse_u64;
use crate::decimal::u64_to_dec_string;
use crate::error::CodecError;
use crate::error::to_custom_error;
use crate::readable::DeserializeAs;
use crate::readable::Readable;
use crate::readable::SerializeAs;
use crate::wire::FormatMode;
use crate::wire::WireForm;
use crate::wire::WireValue;

verus! {

/// A value that renders to a unique text form and parses back from that
/// form exactly, and that rides binary formats as a native 64-bit number
/// token.
pub trait LosslessText: Sized + Copy {
    /// The canonical text rendering of the value.
    spec fn render(self) -> Seq<char>;

    /// What parsing arbitrary text yields.
    spec fn parse(s: Seq<char>) -> Option<Self>;

    /// The native 64-bit number token carrying the value.
    spec fn native(self) -> u64;

    /// What reading a native 64-bit number token yields.
    spec fn from_native(n: u64) -> Option<Self>;

    /// Renders the value as text.
    fn to_text(&self) -> (r: String)
        ensures
            r@ == self.render(),
    ;

    /// Parses text back into a value.
    fn from_text(s: &str) -> (r: Result<Self, CodecError>)
        ensures
            match r {
                Ok(v) => Self::parse(s@) == Some(v),
                Err(_) => Self::parse(s@) is None,
            },
    ;

    /// Reads the value's native number token.
    fn to_native(&self) -> (r: u64)
        ensures
            r == self.native(),
    ;

    /// Reads a value back from a native number token.
    fn from_native_token(n: u64) -> (r: Result<Self, CodecError>)
        ensures
            match r {
                Ok(v) => Self::from_native(n) == Some(v),
                Err(_) => Self::from_native(n) is None,
            },
    ;

    /// The text rendering is lossless: parsing it yields the value back.
    proof fn lemma_text_round_trip(self)
        ensures
            Self::parse(self.render()) == Some(self),
    ;

    /// The native token is lossless: reading it yields the value back.
    proof fn lemma_native_round_trip(self)
        ensures
            Self::from_native(self.native()) == Some(self),
    ;
}

impl LosslessText for u64 {
    open spec fn render(self) -> Seq<char> {
        dec_str(self as nat)
    }

    open spec fn parse(s: Seq<char>) -> Option<u64> {
        spec_parse_u64(s)
    }

    open spec fn native(self) -> u64 {
        self
    }

    open spec fn from_native(n: u64) -> Option<u64> {
        Some(n)
    }

    fn to_text(&self) -> (r: String) {
        u64_to_dec_string(*self)
    }

    fn from_text(s: &str) -> (r: Result<u64, CodecError>) {
        parse_u64_dec(s)
    }

    fn to_native(&self) -> (r: u64) {
        *self
    }

    fn from_native_token(n: u64) -> (r: Result<u64, CodecError>) {
        Ok(n)
    }

    proof fn lemma_text_round_trip(self) {
        lemma_dec_round_trip(self);
    }

    proof fn lemma_native_round_trip(self) {
    }
}

/// A transparent wrapper carrying the string-form serialization behavior
/// for a losslessly printable value; it holds exactly the wrapped value
/// and exists only for the duration of a conversion.
#[derive(Clone, Copy, Debug, PartialEq, Eq)]
pub struct BigInt<T>(pub T);

impl<T: LosslessText> BigInt<T> {
    /// Wraps a value.
    pub fn new(v: T) -> (r: BigInt<T>)
        ensures
            r.0 == v,
    {
        BigInt(v)
    }

    /// Reads the wrapped value back.
    pub fn value(&self) -> (r: T)
        ensures
            r == self.0,
    {
        self.0
    }

    /// The wrapped value's canonical text form.
    pub fn to_text(&self) -> (r: String)
        ensures
            r@ == self.0.render(),
    {
        self.0.to_text()
    }

    /// The type hint a structural-schema generator must receive for a
    /// field carried by this codec: the field appears as a string, never
    /// as a native number.
    pub fn schema_type() -> (r: String)
        ensures
            r@ == "string"@,
    {
        <String as vstd::string::StringExecFns>::from_str("string")
    }
}

impl<T: LosslessText> From<T> for BigInt<T> {
    fn from(v: T) -> (r: BigInt<T>) {
        BigInt(v)
    }
}

impl<T: LosslessText> vstd::std_specs::convert::FromSpecImpl<T> for BigInt<T> {
    open spec fn obeys_from_spec() -> bool {
        true
    }

    open spec fn from_spec(v: T) -> BigInt<T> {
        BigInt(v)
    }
}

impl<T: LosslessText> SerializeAs<T> for BigInt<T> {
    open spec fn ser_total() -> bool {
        true
    }

    open spec fn ser_ok(v: T, mode: FormatMode, w: WireForm) -> bool {
        w == WireForm::Text(v.render())
    }

    fn serialize_as(value: &T, mode: FormatMode) -> (r: Result<WireValue, CodecError>) {
        Ok(WireValue::Text(value.to_text()))
    }
}

impl<T: LosslessText> DeserializeAs<T> for BigInt<T> {
    open spec fn de_ok(w: WireForm, mode: FormatMode, v: T) -> bool {
        w matches WireForm::Text(s) && T::parse(s) == Some(v)
    }

    open spec fn de_err(w: WireForm, mode: FormatMode) -> bool {
        !(w matches WireForm::Text(s) && T::parse(s) is Some)
    }

    fn deserialize_as(wire: &WireValue, mode: FormatMode) -> (r: Result<T, CodecError>) {
        match wire {
            WireValue::Text(s) => T::from_text(s.as_str()),
            _ => Err(to_custom_error("expected a decimal string")),
        }
    }
}

/// The pass-through strategy for binary formats: the value rides as the
/// destination's native 64-bit number token.
pub struct Native;

impl<T: LosslessText> SerializeAs<T> for Native {
    open spec fn ser_total() -> bool {
        true
    }

    open spec fn ser_ok(v: T, mode: FormatMode, w: WireForm) -> bool {
        w == WireForm::U64(v.native())
    }

    fn serialize_as(value: &T, mode: FormatMode) -> (r: Result<WireValue, CodecError>) {
        Ok(WireValue::U64(value.to_native()))
    }
}

impl<T: LosslessText> DeserializeAs<T> for Native {
    open spec fn de_ok(w: WireForm, mode: FormatMode, v: T) -> bool {
        w matches WireForm::U64(n) && T::from_native(n) == Some(v)
    }

    open spec fn de_err(w: WireForm, mode: FormatMode) -> bool {
        !(w matches WireForm::U64(n) && T::from_native(n) is Some)
    }

    fn deserialize_as(wire: &WireValue, mode: FormatMode) -> (r: Result<T, CodecError>) {
        match wire {
            WireValue::U64(n) => T::from_native_token(*n),
            _ => Err(to_custom_error("expected a native number token")),
        }
    }
}

/// Round-trip: under either mode, decoding whatever the combined numeric
/// codec encoded yields the original value — the human-readable path goes
/// through the decimal string, the binary path through the native token.
pub proof fn lemma_numeric_round_trip<T: LosslessText>(v: T, mode: FormatMode, w: WireForm)
    requires
        <Readable<BigInt<T>, Native> as SerializeAs<T>>::ser_ok(v, mode, w),
    ensures
        <Readable<BigInt<T>, Native> as DeserializeAs<T>>::de_ok(w, mode, v),
{
    if mode == FormatMode::HumanReadable {
        v.lemma_text_round_trip();
    } else {
        v.lemma_native_round_trip();
    }
}

/// The encoding is unambiguous: a wire token the combined numeric codec
/// could have produced for two values was produced for one value only.
pub proof fn lemma_numeric_unambiguous<T: LosslessText>(
    v1: T,
    v2: T,
    mode: FormatMode,
    w: WireForm,
)
    requires
        <Readable<BigInt<T>, Native> as SerializeAs<T>>::ser_ok(v1, mode, w),
        <Readable<BigInt<T>, Native> as SerializeAs<T>>::ser_ok(v2, mode, w),
    ensures
        v1 == v2,
{
    if mode == FormatMode::HumanReadable {
        v1.lemma_text_round_trip();
        v2.lemma_text_round_trip();
        assert(v1.render() == v2.render());
    } else {
        v1.lemma_native_round_trip();
        v2.lemma_native_round_trip();
        assert(v1.native() == v2.native());
    }
}

} // verus!
