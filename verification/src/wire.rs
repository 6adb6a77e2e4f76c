//! The wire model: a format's mode and the tokens a conversion produces.

use vstd::prelude::*;

verus! {

/// The mode a serializer or deserializer reports about itself: whether the
/// target format is meant to be read as text or as compact binary.
#[derive(Clone, Copy, Debug, PartialEq, Eq, Structural)]
pub enum FormatMode {
    HumanReadable,
    Binary,
}

impl FormatMode {
    /// The boolean query the surrounding serialization framework answers.
    pub fn is_human_readable(&self) -> (r: bool)
        ensures
            r == (*self == FormatMode::HumanReadable),
    {
        match self {
            FormatMode::HumanReadable => true,
            FormatMode::Binary => false,
        }
    }
}

/// The mathematical value of a wire token: what an encoded value looks like
/// to the surrounding format, independent of ownership.
pub enum WireForm {
    /// A string token.
    Text(Seq<char>),
    /// A native 64-bit unsigned integer token.
    U64(u64),
    /// An opaque byte-string token.
    Bytes(Seq<u8>),
}

/// A single token handed to (or read from) the surrounding format: adapters
/// turn an in-memory value into exactly one such token and back.
pub enum WireValue {
    /// A string token.
    Text(String),
    /// A native 64-bit unsigned integer token.
    U64(u64),
    /// An opaque byte-string token.
    Bytes(Vec<u8>),
}

impl View for WireValue {
    type V = WireForm;

    open spec fn view(&self) -> WireForm {
        match self {
            WireValue::Text(s) => WireForm::Text(s@),
            WireValue::U64(n) => WireForm::U64(*n),
            WireValue::Bytes(b) => WireForm::Bytes(b@),
        }
    }
}

} // verus!
