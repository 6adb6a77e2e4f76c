//! The fixed-length binary address type and its hex-string adapter.
//!
//! An address is rendered as one hex string for every format mode,
//! `0x`-prefixed and full length on encode. Decode detects an optional
//! `0x` prefix, accepts shorter strings by padding with leading zeros, and
//! rejects text that is not even-length hex of at most the full length.

use vstd::prelude::*;
use vstd::string::*;

use crate::error::CodecError;
use crate::error::to_custom_error;
use crate::hex::all_hex_digits;
use crate::hex::append_hex;
use crate::hex::append_hex_bytes;
use crate::hex::hex_bytes;
use crate::hex::hex_of;
use crate::hex::lemma_hex_round_trip;
use crate::readable::DeserializeAs;
use crate::readable::SerializeAs;
use crate::wire::FormatMode;
use crate::wire::WireForm;
use crate::wire::WireValue;

verus! {

/// The length of an address in bytes.
pub const ADDRESS_LENGTH: usize = 32;

/// A fixed-length binary account address.
#[derive(Clone, Debug, PartialEq, Eq)]
pub struct AccountAddress {
    bytes: Vec<u8>,
}

impl View for AccountAddress {
    type V = Seq<u8>;

    closed spec fn view(&self) -> Seq<u8> {
        self.bytes@
    }
}

impl AccountAddress {
    /// An address holds exactly [`ADDRESS_LENGTH`] bytes.
    pub open spec fn wf(&self) -> bool {
        self@.len() == ADDRESS_LENGTH
    }

    /// Builds an address from its bytes; rejects any other length.
    pub fn from_bytes(bytes: Vec<u8>) -> (r: Result<AccountAddress, CodecError>)
        ensures
            match r {
                Ok(a) => bytes@.len() == ADDRESS_LENGTH && a@ == bytes@ && a.wf(),
                Err(_) => bytes@.len() != ADDRESS_LENGTH,
            },
    {
        if bytes.len() == ADDRESS_LENGTH {
            Ok(AccountAddress { bytes })
        } else {
            Err(to_custom_error("address of unexpected length"))
        }
    }

    /// The all-zero address.
    pub fn zero() -> (r: AccountAddress)
        ensures
            r.wf(),
            r@ == Seq::new(ADDRESS_LENGTH as nat, |i: int| 0u8),
    {
        let mut bytes: Vec<u8> = Vec::new();
        let mut i: usize = 0;
        while i < ADDRESS_LENGTH
            invariant
                i <= ADDRESS_LENGTH,
                bytes@ =~= Seq::new(i as nat, |j: int| 0u8),
            decreases ADDRESS_LENGTH - i,
        {
            bytes.push(0);
            i = i + 1;
        }
        AccountAddress { bytes }
    }

    /// Reads the address bytes.
    pub fn as_bytes(&self) -> (r: &Vec<u8>)
        ensures
            r@ == self@,
    {
        &self.bytes
    }

    /// Compares two addresses byte for byte.
    pub fn equals(&self, other: &AccountAddress) -> (r: bool)
        ensures
            r == (self@ == other@),
    {
        if self.bytes.len() != other.bytes.len() {
            assert(self@.len() != other@.len());
            return false;
        }
        let mut i: usize = 0;
        while i < self.bytes.len()
            invariant
                i <= self@.len(),
                self@.len() == other@.len(),
                forall|j: int| 0 <= j < i ==> self@[j] == other@[j],
            decreases self@.len() - i,
        {
            if self.bytes[i] != other.bytes[i] {
                return false;
            }
            i = i + 1;
        }
        proof {
            assert(self@ =~= other@);
        }
        true
    }
}

/// The canonical text form of an address: `0x` followed by the full-length
/// lowercase hex rendering of its bytes.
pub open spec fn address_literal(bytes: Seq<u8>) -> Seq<char> {
    seq!['0', 'x'] + hex_of(bytes)
}

/// The hex digits of an address string, with an optional `0x` prefix
/// stripped.
pub open spec fn strip_hex_prefix(s: Seq<char>) -> Seq<char> {
    if s.len() >= 2 && s[0] == '0' && s[1] == 'x' {
        s.skip(2)
    } else {
        s
    }
}

/// What decoding an address string yields: the denoted bytes, left-padded
/// with zero bytes to the full length, provided the digits (after an
/// optional `0x` prefix) are a nonempty, even-length, full-length-or-shorter
/// run of hex characters; nothing otherwise.
pub open spec fn spec_decode_address(s: Seq<char>) -> Option<Seq<u8>> {
    let h = strip_hex_prefix(s);
    if h.len() > 0 && h.len() % 2 == 0 && h.len() <= 2 * ADDRESS_LENGTH && all_hex_digits(h) {
        Some(Seq::new((ADDRESS_LENGTH - h.len() / 2) as nat, |i: int| 0u8) + hex_bytes(h))
    } else {
        None
    }
}

/// Hex-string adapter for [`AccountAddress`]: the same textual
/// representation serves every format mode.
pub struct HexAccountAddress;

impl SerializeAs<AccountAddress> for HexAccountAddress {
    open spec fn ser_total() -> bool {
        true
    }

    open spec fn ser_ok(v: AccountAddress, mode: FormatMode, w: WireForm) -> bool {
        w == WireForm::Text(address_literal(v@))
    }

    fn serialize_as(value: &AccountAddress, mode: FormatMode) -> (r: Result<
        WireValue,
        CodecError,
    >) {
        let mut acc = String::from_str("0x");
        proof {
            reveal_strlit("0x");
            assert(acc@ =~= seq!['0', 'x']);
        }
        append_hex(&mut acc, &value.bytes);
        Ok(WireValue::Text(acc))
    }
}

impl DeserializeAs<AccountAddress> for HexAccountAddress {
    open spec fn de_ok(w: WireForm, mode: FormatMode, v: AccountAddress) -> bool {
        w matches WireForm::Text(s) && spec_decode_address(s) == Some(v@)
    }

    open spec fn de_err(w: WireForm, mode: FormatMode) -> bool {
        !(w matches WireForm::Text(s) && spec_decode_address(s) is Some)
    }

    fn deserialize_as(wire: &WireValue, mode: FormatMode) -> (r: Result<
        AccountAddress,
        CodecError,
    >) {
        let s: &String = match wire {
            WireValue::Text(s) => s,
            _ => {
                return Err(to_custom_error("expected a hex string"));
            },
        };
        let s = s.as_str();
        let n = s.unicode_len();
        let start: usize = if n >= 2 && s.get_char(0) == '0' && s.get_char(1) == 'x' {
            2
        } else {
            0
        };
        let ghost h = strip_hex_prefix(s@);
        proof {
            assert(h =~= s@.skip(start as int));
        }
        let len = n - start;
        if len == 0 || len % 2 != 0 || len > 2 * ADDRESS_LENGTH {
            return Err(to_custom_error("hex string of unexpected length"));
        }
        let mut bytes: Vec<u8> = Vec::new();
        let pad = ADDRESS_LENGTH - len / 2;
        let mut i: usize = 0;
        while i < pad
            invariant
                i <= pad,
                bytes@ =~= Seq::new(i as nat, |j: int| 0u8),
            decreases pad - i,
        {
            bytes.push(0);
            i = i + 1;
        }
        if !append_hex_bytes(&mut bytes, s, start, n) {
            return Err(to_custom_error("invalid hex character"));
        }
        proof {
            assert(s@.subrange(start as int, n as int) =~= h);
            assert(bytes@ =~= Seq::new(pad as nat, |j: int| 0u8) + hex_bytes(h));
            assert(spec_decode_address(s@) == Some(bytes@));
        }
        let a = AccountAddress { bytes };
        Ok(a)
    }
}

/// Dual acceptance: a `0x`-prefixed and an unprefixed spelling of the same
/// hex digits decode alike, whenever the digits do not themselves begin
/// with the prefix.
pub proof fn lemma_prefix_insensitive(h: Seq<char>)
    requires
        !(h.len() >= 2 && h[0] == '0' && h[1] == 'x'),
    ensures
        spec_decode_address(seq!['0', 'x'] + h) == spec_decode_address(h),
{
    assert(strip_hex_prefix(seq!['0', 'x'] + h) =~= h);
}

/// Round-trip: decoding the canonical text form of an address yields the
/// same address bytes, in every format mode.
pub proof fn lemma_address_round_trip(a: AccountAddress, mode: FormatMode, w: WireForm)
    requires
        a.wf(),
        HexAccountAddress::ser_ok(a, mode, w),
    ensures
        HexAccountAddress::de_ok(w, mode, a),
{
    lemma_hex_round_trip(a@);
    let lit = address_literal(a@);
    assert(strip_hex_prefix(lit) =~= hex_of(a@));
    let h = hex_of(a@);
    assert(h.len() == 2 * ADDRESS_LENGTH);
    assert(Seq::new((ADDRESS_LENGTH - h.len() / 2) as nat, |i: int| 0u8) + hex_bytes(h) =~= a@);
}

} // verus!
