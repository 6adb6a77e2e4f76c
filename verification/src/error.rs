//! The format layer's error type and the two message-shaping helpers that
//! wrap an underlying failure into it.

use vstd::prelude::*;
use vstd::string::*;

verus! {

/// A conversion failure surfaced by an adapter: either the incoming
/// representation was rejected at decode time, or the underlying format
/// writer rejected a value at encode time.
#[derive(Debug, Clone, PartialEq, Eq)]
pub enum CodecError {
    /// A decode-side failure: malformed hex, invalid bitmap bytes, an
    /// unparsable numeric literal, or a grammar-rejected identifier string.
    Deserialization { message: String },
    /// An encode-side failure reported by the underlying format writer.
    Serialization { message: String },
}

impl CodecError {
    /// The diagnostic message carried by this error.
    pub open spec fn spec_message(&self) -> Seq<char> {
        match self {
            CodecError::Deserialization { message } => message@,
            CodecError::Serialization { message } => message@,
        }
    }

    /// Reads the diagnostic message.
    pub fn message(&self) -> (r: &String)
        ensures
            r@ == self.spec_message(),
    {
        match self {
            CodecError::Deserialization { message } => message,
            CodecError::Serialization { message } => message,
        }
    }
}

/// Wraps an underlying decode failure, attaching a diagnostic message.
pub fn to_custom_error(detail: &str) -> (r: CodecError)
    ensures
        (r matches CodecError::Deserialization { message } && message@
            == "byte deserialization failed, caused by: "@ + detail@),
{
    let mut m = String::from_str("byte deserialization failed, caused by: ");
    m.append(detail);
    CodecError::Deserialization { message: m }
}

/// Wraps an underlying encode failure, attaching a diagnostic message.
pub fn to_custom_ser_error(detail: &str) -> (r: CodecError)
    ensures
        (r matches CodecError::Serialization { message } && message@
            == "byte serialization failed, caused by: "@ + detail@),
{
    let mut m = String::from_str("byte serialization failed, caused by: ");
    m.append(detail);
    CodecError::Serialization { message: m }
}

} // verus!
