//! The format dispatcher: conversion strategies, and the combinator that
//! picks one of two strategies from the format's declared mode.

use core::marker::PhantomData;
use vstd::prelude::*;

use crate::error::CodecError;
use crate::wire::FormatMode;
use crate::wire::WireForm;
use crate::wire::WireValue;

verus! {

/// A stateless encoding strategy for values of type `T`: a pure mapping
/// from a value to a single wire token.
pub trait SerializeAs<T>: Sized {
    /// Whether this strategy produces a token for every value.
    spec fn ser_total() -> bool;

    /// `v` encodes, under the given mode, to the wire token `w`.
    spec fn ser_ok(v: T, mode: FormatMode, w: WireForm) -> bool;

    /// Encodes a value as one wire token.
    fn serialize_as(value: &T, mode: FormatMode) -> (r: Result<WireValue, CodecError>)
        ensures
            (r matches Ok(w) ==> Self::ser_ok(*value, mode, w@)),
            Self::ser_total() ==> r is Ok,
    ;
}

/// A stateless decoding strategy for values of type `T`: a pure mapping
/// from a wire token back to a value.
pub trait DeserializeAs<T>: Sized {
    /// `v` is an acceptable decoding of the wire token `w` under the given
    /// mode.
    spec fn de_ok(w: WireForm, mode: FormatMode, v: T) -> bool;

    /// The wire token `w` is rejected under the given mode.
    spec fn de_err(w: WireForm, mode: FormatMode) -> bool;

    /// Decodes one wire token back into a value.
    fn deserialize_as(wire: &WireValue, mode: FormatMode) -> (r: Result<T, CodecError>)
        ensures
            match r {
                Ok(v) => Self::de_ok(wire@, mode, v),
                Err(_) => Self::de_err(wire@, mode),
            },
    ;
}

/// Combines two conversion strategies into one that dispatches on the
/// format's declared mode: `H` serves human-readable formats, `R` binary
/// ones. The chosen strategy's result, or failure, is passed on unchanged;
/// the dispatcher itself never raises an error.
pub struct Readable<H, R> {
    human_readable: PhantomData<H>,
    non_human_readable: PhantomData<R>,
}

impl<T, H: SerializeAs<T>, R: SerializeAs<T>> SerializeAs<T> for Readable<H, R> {
    open spec fn ser_total() -> bool {
        H::ser_total() && R::ser_total()
    }

    open spec fn ser_ok(v: T, mode: FormatMode, w: WireForm) -> bool {
        if mode == FormatMode::HumanReadable {
            H::ser_ok(v, mode, w)
        } else {
            R::ser_ok(v, mode, w)
        }
    }

    fn serialize_as(value: &T, mode: FormatMode) -> (r: Result<WireValue, CodecError>) {
        if mode.is_human_readable() {
            H::serialize_as(value, mode)
        } else {
            R::serialize_as(value, mode)
        }
    }
}

impl<T, H: DeserializeAs<T>, R: DeserializeAs<T>> DeserializeAs<T> for Readable<H, R> {
    open spec fn de_ok(w: WireForm, mode: FormatMode, v: T) -> bool {
        if mode == FormatMode::HumanReadable {
            H::de_ok(w, mode, v)
        } else {
            R::de_ok(w, mode, v)
        }
    }

    open spec fn de_err(w: WireForm, mode: FormatMode) -> bool {
        if mode == FormatMode::HumanReadable {
            H::de_err(w, mode)
        } else {
            R::de_err(w, mode)
        }
    }

    fn deserialize_as(wire: &WireValue, mode: FormatMode) -> (r: Result<T, CodecError>) {
        if mode.is_human_readable() {
            H::deserialize_as(wire, mode)
        } else {
            R::deserialize_as(wire, mode)
        }
    }
}

/// Mode purity: what the combined strategy accepts as an encoding depends
/// only on the format's declared mode — under the human-readable mode it is
/// exactly what `H` accepts, under the binary mode exactly what `R`
/// accepts, never a mixture.
pub proof fn lemma_readable_mode_purity<T, H: SerializeAs<T>, R: SerializeAs<T>>(
    v: T,
    w: WireForm,
)
    ensures
        Readable::<H, R>::ser_ok(v, FormatMode::HumanReadable, w) == H::ser_ok(
            v,
            FormatMode::HumanReadable,
            w,
        ),
        Readable::<H, R>::ser_ok(v, FormatMode::Binary, w) == R::ser_ok(
            v,
            FormatMode::Binary,
            w,
        ),
{
}

/// Mode purity, decode side: what the combined strategy accepts or rejects
/// as an incoming token likewise depends only on the format's declared
/// mode.
pub proof fn lemma_readable_decode_mode_purity<T, H: DeserializeAs<T>, R: DeserializeAs<T>>(
    v: T,
    w: WireForm,
)
    ensures
        Readable::<H, R>::de_ok(w, FormatMode::HumanReadable, v) == H::de_ok(
            w,
            FormatMode::HumanReadable,
            v,
        ),
        Readable::<H, R>::de_ok(w, FormatMode::Binary, v) == R::de_ok(w, FormatMode::Binary, v),
        Readable::<H, R>::de_err(w, FormatMode::HumanReadable) == H::de_err(
            w,
            FormatMode::HumanReadable,
        ),
        Readable::<H, R>::de_err(w, FormatMode::Binary) == R::de_err(w, FormatMode::Binary),
{
}

} // verus!
