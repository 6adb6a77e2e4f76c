//! String-form adapters for structured type identifiers.
//!
//! A type identifier denotes a data type's fully-qualified name. Its text
//! grammar and parser belong to an outside library and are consumed as
//! black boxes: encoding takes the identifier's canonical string form,
//! decoding hands the string to the grammar parser. The same string serves
//! every format mode.

use vstd::prelude::*;

use crate::error::CodecError;
use crate::error::to_custom_error;
use crate::readable::DeserializeAs;
use crate::readable::SerializeAs;
use crate::wire::FormatMode;
use crate::wire::WireForm;
use crate::wire::WireValue;

verus! {

#[verifier::external_type_specification]
#[verifier::external_body]
pub struct ExStructTag(move_core_types::language_storage::StructTag);

#[verifier::external_type_specification]
#[verifier::external_body]
pub struct ExTypeTag(move_core_types::language_storage::TypeTag);

/// The canonical string form of a struct identifier: a function of the
/// identifier alone.
pub uninterp spec fn struct_tag_str(t: move_core_types::language_storage::StructTag) -> Seq<
    char,
>;

/// The canonical string form of a type identifier: a function of the
/// identifier alone.
pub uninterp spec fn type_tag_str(t: move_core_types::language_storage::TypeTag) -> Seq<char>;

/// What the type-identifier grammar parser yields on a string: the
/// identifier it denotes, or nothing if the grammar rejects it.
pub uninterp spec fn type_tag_parse(s: Seq<char>) -> Option<
    move_core_types::language_storage::TypeTag,
>;

/// The struct identifier a type identifier carries, if it is one.
pub uninterp spec fn type_tag_as_struct(t: move_core_types::language_storage::TypeTag) -> Option<
    move_core_types::language_storage::StructTag,
>;

/// What parsing a string as a struct identifier yields: the payload of a
/// parsed type identifier that denotes a struct, nothing otherwise.
pub open spec fn spec_parse_struct_tag(s: Seq<char>) -> Option<
    move_core_types::language_storage::StructTag,
> {
    match type_tag_parse(s) {
        Some(t) => type_tag_as_struct(t),
        None => None,
    }
}

/// Relies on move_core_types' `Display` for `StructTag`: it renders the
/// identifier's canonical text form, a deterministic function of the
/// identifier alone.
#[verifier::external_body]
fn struct_tag_to_string(t: &move_core_types::language_storage::StructTag) -> (r: String)
    ensures
        r@ == struct_tag_str(*t),
{
    t.to_string()
}

/// Relies on move_core_types' `Display` for `TypeTag`: it renders the
/// identifier's canonical text form, a deterministic function of the
/// identifier alone.
#[verifier::external_body]
fn type_tag_to_string(t: &move_core_types::language_storage::TypeTag) -> (r: String)
    ensures
        r@ == type_tag_str(*t),
{
    t.to_string()
}

/// Relies on move_core_types' `parser::parse_type_tag`: a deterministic
/// parser for the type-identifier grammar, rejecting text outside it.
#[verifier::external_body]
fn parse_type_tag_str(s: &str) -> (r: Result<
    move_core_types::language_storage::TypeTag,
    String,
>)
    ensures
        match r {
            Ok(t) => type_tag_parse(s@) == Some(t),
            Err(_) => type_tag_parse(s@) is None,
        },
{
    move_core_types::parser::parse_type_tag(s).map_err(|e| e.to_string())
}

/// Relies on `TypeTag`'s variant structure: picks out the payload of the
/// `Struct` variant, if that is the variant at hand.
#[verifier::external_body]
fn type_tag_into_struct(t: move_core_types::language_storage::TypeTag) -> (r: Option<
    move_core_types::language_storage::StructTag,
>)
    ensures
        r == type_tag_as_struct(t),
{
    match t {
        move_core_types::language_storage::TypeTag::Struct(s) => Some(s),
        _ => None,
    }
}

/// String-form adapter for struct identifiers.
pub struct SuiStructTag;

impl SerializeAs<move_core_types::language_storage::StructTag> for SuiStructTag {
    open spec fn ser_total() -> bool {
        true
    }

    open spec fn ser_ok(
        v: move_core_types::language_storage::StructTag,
        mode: FormatMode,
        w: WireForm,
    ) -> bool {
        w == WireForm::Text(struct_tag_str(v))
    }

    fn serialize_as(
        value: &move_core_types::language_storage::StructTag,
        mode: FormatMode,
    ) -> (r: Result<WireValue, CodecError>) {
        Ok(WireValue::Text(struct_tag_to_string(value)))
    }
}

impl DeserializeAs<move_core_types::language_storage::StructTag> for SuiStructTag {
    open spec fn de_ok(
        w: WireForm,
        mode: FormatMode,
        v: move_core_types::language_storage::StructTag,
    ) -> bool {
        w matches WireForm::Text(s) && spec_parse_struct_tag(s) == Some(v)
    }

    open spec fn de_err(w: WireForm, mode: FormatMode) -> bool {
        !(w matches WireForm::Text(s) && spec_parse_struct_tag(s) is Some)
    }

    fn deserialize_as(wire: &WireValue, mode: FormatMode) -> (r: Result<
        move_core_types::language_storage::StructTag,
        CodecError,
    >) {
        let s: &String = match wire {
            WireValue::Text(s) => s,
            _ => {
                return Err(to_custom_error("expected an identifier string"));
            },
        };
        match parse_type_tag_str(s.as_str()) {
            Ok(t) => match type_tag_into_struct(t) {
                Some(st) => Ok(st),
                None => Err(to_custom_error("expected a struct identifier")),
            },
            Err(e) => Err(to_custom_error(e.as_str())),
        }
    }
}

/// String-form adapter for type identifiers.
pub struct SuiTypeTag;

impl SerializeAs<move_core_types::language_storage::TypeTag> for SuiTypeTag {
    open spec fn ser_total() -> bool {
        true
    }

    open spec fn ser_ok(
        v: move_core_types::language_storage::TypeTag,
        mode: FormatMode,
        w: WireForm,
    ) -> bool {
        w == WireForm::Text(type_tag_str(v))
    }

    fn serialize_as(
        value: &move_core_types::language_storage::TypeTag,
        mode: FormatMode,
    ) -> (r: Result<WireValue, CodecError>) {
        Ok(WireValue::Text(type_tag_to_string(value)))
    }
}

impl DeserializeAs<move_core_types::language_storage::TypeTag> for SuiTypeTag {
    open spec fn de_ok(
        w: WireForm,
        mode: FormatMode,
        v: move_core_types::language_storage::TypeTag,
    ) -> bool {
        w matches WireForm::Text(s) && type_tag_parse(s) == Some(v)
    }

    open spec fn de_err(w: WireForm, mode: FormatMode) -> bool {
        !(w matches WireForm::Text(s) && type_tag_parse(s) is Some)
    }

    fn deserialize_as(wire: &WireValue, mode: FormatMode) -> (r: Result<
        move_core_types::language_storage::TypeTag,
        CodecError,
    >) {
        let s: &String = match wire {
            WireValue::Text(s) => s,
            _ => {
                return Err(to_custom_error("expected an identifier string"));
            },
        };
        match parse_type_tag_str(s.as_str()) {
            Ok(t) => Ok(t),
            Err(e) => Err(to_custom_error(e.as_str())),
        }
    }
}

/// Mode purity: both identifier adapters put the identifier's canonical
/// string form on the wire whatever the format's declared mode, and accept
/// exactly what the grammar parser accepts whatever the mode.
pub proof fn lemma_tag_adapters_mode_independent(
    st: move_core_types::language_storage::StructTag,
    tt: move_core_types::language_storage::TypeTag,
    m1: FormatMode,
    m2: FormatMode,
    w: WireForm,
)
    ensures
        <SuiStructTag as SerializeAs<move_core_types::language_storage::StructTag>>::ser_ok(
            st,
            m1,
            w,
        ) == <SuiStructTag as SerializeAs<move_core_types::language_storage::StructTag>>::ser_ok(
            st,
            m2,
            w,
        ),
        <SuiTypeTag as SerializeAs<move_core_types::language_storage::TypeTag>>::ser_ok(tt, m1, w)
            == <SuiTypeTag as SerializeAs<move_core_types::language_storage::TypeTag>>::ser_ok(
            tt,
            m2,
            w,
        ),
        <SuiTypeTag as DeserializeAs<move_core_types::language_storage::TypeTag>>::de_ok(w, m1, tt)
            == <SuiTypeTag as DeserializeAs<move_core_types::language_storage::TypeTag>>::de_ok(
            w,
            m2,
            tt,
        ),
        <SuiStructTag as DeserializeAs<move_core_types::language_storage::StructTag>>::de_ok(
            w,
            m1,
            st,
        ) == <SuiStructTag as DeserializeAs<move_core_types::language_storage::StructTag>>::de_ok(
            w,
            m2,
            st,
        ),
{
}

} // verus!
