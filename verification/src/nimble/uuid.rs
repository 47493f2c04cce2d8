//! Type wrappers for BLE UUIDs
//!
//! The [Uuid16], [Uuid32] and [Uuid128] types represent UUIDs of their given lengths, and can be
//! parsed from string-formatted UUIDs (hex digit pairs, optionally separated by dashes). As is the
//! convention in Bluetooth's serialization, the first pair of the string ends up in the last byte.

use vstd::prelude::*;
use vstd::string::StringSliceAdditionalSpecFns;

verus! {

/// A string that is not a UUID of the requested length
#[derive(Debug)]
pub struct UuidParseError;

/// NimBLE's type tag of 16-bit UUIDs
pub const BLE_UUID_TYPE_16: u8 = 16;
/// NimBLE's type tag of 32-bit UUIDs
pub const BLE_UUID_TYPE_32: u8 = 32;
/// NimBLE's type tag of 128-bit UUIDs
pub const BLE_UUID_TYPE_128: u8 = 128;

/// The header of NimBLE's UUID structures: the UUID's type tag
#[derive(Clone, Copy, PartialEq, Eq, Structural)]
pub struct BleUuid {
    pub type_: u8,
}

/// The value of an ASCII hex digit
pub open spec fn hex_digit(c: u8) -> Option<u8> {
    if 0x30 <= c <= 0x39 {
        Some((c - 0x30) as u8)
    } else if 0x41 <= c <= 0x46 {
        Some((c - 0x41 + 10) as u8)
    } else if 0x61 <= c <= 0x66 {
        Some((c - 0x61 + 10) as u8)
    } else {
        None
    }
}

/// The byte that two ASCII hex digits stand for
pub open spec fn hex_pair(high: u8, low: u8) -> Option<u8> {
    match (hex_digit(high), hex_digit(low)) {
        (Some(h), Some(l)) => Some((h * 16 + l) as u8),
        _ => None,
    }
}

/// Calls `hex::decode_to_slice` on a pair of characters: the byte the two hex digits encode, or
/// None if one of them is not a hex digit (upper or lower case).
#[verifier::external_body]
fn decode_hex_pair(pair: &[u8]) -> (r: Option<u8>)
    requires
        pair@.len() == 2,
    ensures
        r == hex_pair(pair@[0], pair@[1]),
{
    let mut out = [0u8; 1];
    match hex::decode_to_slice(pair, &mut out) {
        Ok(()) => Some(out[0]),
        Err(_) => None,
    }
}

/// The bytes that the digit pairs of a UUID string encode, in the order of the string
///
/// Dashes between pairs are skipped, and a single character left at the end is ignored; a pair
/// that is not two hex digits makes the string invalid.
pub open spec fn uuid_pairs(s: Seq<u8>) -> Option<Seq<u8>>
    decreases s.len(),
{
    if s.len() <= 1 {
        Some(Seq::empty())
    } else if s[0] == 0x2d {
        uuid_pairs(s.drop_first())
    } else {
        match hex_pair(s[0], s[1]) {
            None => None,
            Some(b) => match uuid_pairs(s.subrange(2, s.len() as int)) {
                None => None,
                Some(rest) => Some(seq![b] + rest),
            },
        }
    }
}

/// The `n` bytes of a UUID whose string encodes `pairs`: the pairs fill the value from its end,
/// bytes before them are zero.
pub open spec fn uuid_value(pairs: Seq<u8>, n: nat) -> Seq<u8> {
    Seq::new(n, |j: int| if j >= n - pairs.len() { pairs[n - 1 - j] } else { 0u8 })
}

/// Parse the UUID string `input` into `value`, which must be all zero
///
/// This succeeds if the string's digit pairs are valid and are not more than `value` holds.
pub fn parse_uuid_into(input: &[u8], value: &mut [u8]) -> (r: Result<(), UuidParseError>)
    requires
        forall|j: int| 0 <= j < old(value)@.len() ==> old(value)@[j] == 0,
    ensures
        r is Ok <==> (uuid_pairs(input@) matches Some(p) && p.len() <= old(value)@.len()),
        r is Ok ==> final(value)@ == uuid_value(uuid_pairs(input@).unwrap(), old(value)@.len()),
        final(value)@.len() == old(value)@.len(),
{
    let n = value.len();
    let mut pos: usize = 0;
    let mut remaining: usize = n;
    let ghost mut decoded: Seq<u8> = Seq::empty();
    proof {
        assert(input@.subrange(0, input@.len() as int) =~= input@);
        assert forall|r: Seq<u8>| #[trigger] (Seq::<u8>::empty() + r) == r by {
            assert(Seq::<u8>::empty() + r =~= r);
        }
    }
    while input.len() - pos > 1
        invariant
            pos <= input@.len(),
            remaining <= n,
            n == value@.len(),
            value@.len() == old(value)@.len(),
            decoded.len() == n - remaining,
            uuid_pairs(input@) == match uuid_pairs(input@.subrange(pos as int, input@.len() as int)) {
                None => None,
                Some(rest) => Some(decoded + rest),
            },
            forall|j: int| 0 <= j < remaining ==> value@[j] == 0,
            forall|k: int| 0 <= k < decoded.len() ==> value@[n - 1 - k] == decoded[k],
        decreases input@.len() - pos,
    {
        let ghost suffix = input@.subrange(pos as int, input@.len() as int);
        if input[pos] == 0x2d {
            assert(suffix.drop_first() =~= input@.subrange(pos + 1, input@.len() as int));
            pos = pos + 1;
            continue;
        }
        let pair = &input[pos..pos + 2];
        assert(pair@[0] == suffix[0] && pair@[1] == suffix[1]);
        assert(suffix.subrange(2, suffix.len() as int) =~= input@.subrange(
            pos + 2,
            input@.len() as int,
        ));
        let b = match decode_hex_pair(pair) {
            Some(b) => b,
            None => {
                assert(uuid_pairs(suffix) is None);
                return Err(UuidParseError);
            },
        };
        assert(uuid_pairs(suffix) == match uuid_pairs(input@.subrange(pos + 2, input@.len() as int)) {
            None => None,
            Some(rest) => Some(seq![b] + rest),
        });
        if remaining < 1 {
            proof {
                let rest = uuid_pairs(input@.subrange(pos + 2, input@.len() as int));
                if rest is Some {
                    assert(uuid_pairs(input@) == Some(decoded + (seq![b] + rest.unwrap())));
                    assert(uuid_pairs(input@).unwrap().len() == decoded.len() + 1 + rest.unwrap().len());
                }
            }
            return Err(UuidParseError);
        }
        remaining = remaining - 1;
        value[remaining] = b;
        proof {
            let rest = uuid_pairs(input@.subrange(pos + 2, input@.len() as int));
            if rest is Some {
                assert(decoded.push(b) + rest.unwrap() =~= decoded + (seq![b] + rest.unwrap()));
            }
            decoded = decoded.push(b);
        }
        pos = pos + 2;
    }
    proof {
        let suffix = input@.subrange(pos as int, input@.len() as int);
        assert(uuid_pairs(suffix) == Some(Seq::<u8>::empty()));
        assert(decoded + Seq::<u8>::empty() =~= decoded);
        assert(value@ =~= uuid_value(decoded, n as nat));
    }
    Ok(())
}

/// A 16-bit BLE UUID
pub struct Uuid16 {
    u: BleUuid,
    value: [u8; 2],
}

impl Uuid16 {
    /// The UUID's bytes in Bluetooth's order
    pub closed spec fn spec_value(&self) -> Seq<u8> {
        self.value@
    }

    /// The UUID's type header
    pub closed spec fn spec_header(&self) -> BleUuid {
        self.u
    }

    /// Parse a UUID string of 2 bytes
    pub fn from_str(input: &str) -> (r: Result<Self, UuidParseError>)
        ensures
            r is Ok <==> (uuid_pairs(input.spec_bytes()) matches Some(p) && p.len() <= 2),
            r matches Ok(u) ==> u.spec_value() == uuid_value(uuid_pairs(input.spec_bytes()).unwrap(), 2)
                && u.spec_header().type_ == BLE_UUID_TYPE_16,
    {
        let mut value = [0u8; 2];
        match parse_uuid_into(input.as_bytes(), &mut value) {
            Ok(()) => Ok(Uuid16 { u: BleUuid { type_: BLE_UUID_TYPE_16 }, value }),
            Err(e) => Err(e),
        }
    }

    /// The UUID's bytes in Bluetooth's order
    pub fn value(&self) -> (v: &[u8; 2])
        ensures
            v@ == self.spec_value(),
    {
        &self.value
    }
}

impl core::str::FromStr for Uuid16 {
    type Err = UuidParseError;

    fn from_str(input: &str) -> (r: Result<Self, UuidParseError>)
        ensures
            r is Ok <==> (uuid_pairs(input.spec_bytes()) matches Some(p) && p.len() <= 2),
            r matches Ok(u) ==> u.spec_value() == uuid_value(uuid_pairs(input.spec_bytes()).unwrap(), 2)
                && u.spec_header().type_ == BLE_UUID_TYPE_16,
    {
        Uuid16::from_str(input)
    }
}

/// A 32-bit BLE UUID
pub struct Uuid32 {
    u: BleUuid,
    value: [u8; 4],
}

impl Uuid32 {
    /// The UUID's bytes in Bluetooth's order
    pub closed spec fn spec_value(&self) -> Seq<u8> {
        self.value@
    }

    /// The UUID's type header
    pub closed spec fn spec_header(&self) -> BleUuid {
        self.u
    }

    /// Parse a UUID string of 4 bytes
    pub fn from_str(input: &str) -> (r: Result<Self, UuidParseError>)
        ensures
            r is Ok <==> (uuid_pairs(input.spec_bytes()) matches Some(p) && p.len() <= 4),
            r matches Ok(u) ==> u.spec_value() == uuid_value(uuid_pairs(input.spec_bytes()).unwrap(), 4)
                && u.spec_header().type_ == BLE_UUID_TYPE_32,
    {
        let mut value = [0u8; 4];
        match parse_uuid_into(input.as_bytes(), &mut value) {
            Ok(()) => Ok(Uuid32 { u: BleUuid { type_: BLE_UUID_TYPE_32 }, value }),
            Err(e) => Err(e),
        }
    }

    /// The UUID's bytes in Bluetooth's order
    pub fn value(&self) -> (v: &[u8; 4])
        ensures
            v@ == self.spec_value(),
    {
        &self.value
    }
}

impl core::str::FromStr for Uuid32 {
    type Err = UuidParseError;

    fn from_str(input: &str) -> (r: Result<Self, UuidParseError>)
        ensures
            r is Ok <==> (uuid_pairs(input.spec_bytes()) matches Some(p) && p.len() <= 4),
            r matches Ok(u) ==> u.spec_value() == uuid_value(uuid_pairs(input.spec_bytes()).unwrap(), 4)
                && u.spec_header().type_ == BLE_UUID_TYPE_32,
    {
        Uuid32::from_str(input)
    }
}

/// A 128-bit BLE UUID
pub struct Uuid128 {
    u: BleUuid,
    value: [u8; 16],
}

impl Uuid128 {
    /// The UUID's bytes in Bluetooth's order
    pub closed spec fn spec_value(&self) -> Seq<u8> {
        self.value@
    }

    /// The UUID's type header
    pub closed spec fn spec_header(&self) -> BleUuid {
        self.u
    }

    /// Parse a UUID string of 16 bytes
    pub fn from_str(input: &str) -> (r: Result<Self, UuidParseError>)
        ensures
            r is Ok <==> (uuid_pairs(input.spec_bytes()) matches Some(p) && p.len() <= 16),
            r matches Ok(u) ==> u.spec_value() == uuid_value(uuid_pairs(input.spec_bytes()).unwrap(), 16)
                && u.spec_header().type_ == BLE_UUID_TYPE_128,
    {
        let mut value = [0u8; 16];
        match parse_uuid_into(input.as_bytes(), &mut value) {
            Ok(()) => Ok(Uuid128 { u: BleUuid { type_: BLE_UUID_TYPE_128 }, value }),
            Err(e) => Err(e),
        }
    }

    /// The UUID's bytes in Bluetooth's order
    pub fn value(&self) -> (v: &[u8; 16])
        ensures
            v@ == self.spec_value(),
    {
        &self.value
    }
}

impl core::str::FromStr for Uuid128 {
    type Err = UuidParseError;

    fn from_str(input: &str) -> (r: Result<Self, UuidParseError>)
        ensures
            r is Ok <==> (uuid_pairs(input.spec_bytes()) matches Some(p) && p.len() <= 16),
            r matches Ok(u) ==> u.spec_value() == uuid_value(uuid_pairs(input.spec_bytes()).unwrap(), 16)
                && u.spec_header().type_ == BLE_UUID_TYPE_128,
    {
        Uuid128::from_str(input)
    }
}

} // verus!
