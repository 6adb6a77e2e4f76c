//! Dual-representation serialization adapters.
//!
//! A value adapted by this library has two independent wire representations:
//! one meant for human-readable formats (JSON, text configs) and one for
//! compact binary formats. The representation is chosen at encode/decode time
//! from the target format's declared mode, never from the value itself.
//!
//! Every conversion is computed here on plain wire tokens ([`wire::WireValue`])
//! and proved against a spec-level model; the surrounding serialization
//! framework only queries the format's mode and moves the tokens.

pub mod address;
pub mod bigint;
pub mod bitmap;
pub mod decimal;
pub mod error;
pub mod hex;
pub mod readable;
pub mod tags;
pub mod versions;
pub mod wire;
