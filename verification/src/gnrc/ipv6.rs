//! IPv6 addresses and headers as they appear on the wire

use vstd::prelude::*;

verus! {

/// Whether the 16 octets of an address are all zero (`::`)
pub open spec fn spec_is_unspecified(a: Seq<u8>) -> bool {
    forall|i: int| 0 <= i < 16 ==> a[i] == 0
}

/// Whether the 16 octets of an address are the loopback address `::1`
pub open spec fn spec_is_loopback(a: Seq<u8>) -> bool {
    &&& forall|i: int| 0 <= i < 15 ==> a[i] == 0
    &&& a[15] == 1
}

/// Whether an address is a multicast address (`ff00::/8`)
pub open spec fn spec_is_multicast(a: Seq<u8>) -> bool {
    a[0] == 0xff
}

/// Whether an address is link-local: unicast in `fe80::/64`, or multicast of link-local scope
pub open spec fn spec_is_link_local(a: Seq<u8>) -> bool {
    ||| (a[0] == 0xfe && a[1] == 0x80 && forall|i: int| 2 <= i < 8 ==> a[i] == 0)
    ||| (spec_is_multicast(a) && a[1] % 16 == 2)
}

/// The lower-case hexadecimal digit of `n` (below 16)
pub open spec fn spec_hex_lower(n: int) -> u8 {
    if n < 10 {
        (48 + n) as u8
    } else {
        (87 + n) as u8
    }
}

/// The lower-case hexadecimal digit of `n`
pub fn hex_lower(n: u8) -> (d: u8)
    requires
        n < 16,
    ensures
        d == spec_hex_lower(n as int),
{
    if n < 10 {
        48 + n
    } else {
        87 + n
    }
}

/// Which octet the character at position `j` of an address text shows (see [address_text])
pub open spec fn text_byte_index(j: int) -> int {
    2 * (j / 5) + (j % 5) / 2
}

/// The text of the address with the octets `o`: eight groups of four lower-case hexadecimal
/// digits (two octets each, high nibble first), separated by colons; 39 characters
pub open spec fn address_text(o: Seq<u8>) -> Seq<u8> {
    Seq::new(
        39,
        |j: int|
            if j % 5 == 4 {
                58u8
            } else if (j % 5) % 2 == 0 {
                spec_hex_lower((o[text_byte_index(j)] / 16) as int)
            } else {
                spec_hex_lower((o[text_byte_index(j)] % 16) as int)
            },
    )
}

/// An IPv6 address, stored as its 16 octets in network byte order
#[derive(Copy, Clone)]
pub struct Address {
    inner: [u8; 16],
}

impl Address {
    /// The 16 octets of the address
    pub closed spec fn octets(self) -> Seq<u8> {
        self.inner@
    }

    /// An address from its 16 octets in network byte order
    pub fn from_octets(octets: [u8; 16]) -> (a: Address)
        ensures
            a.octets() == octets@,
    {
        Address { inner: octets }
    }

    /// The 16 octets of the address
    pub fn raw(&self) -> (r: &[u8; 16])
        ensures
            r@ == self.octets(),
    {
        &self.inner
    }

    /// The address as text, in the form RIOT's wrappers print it: eight groups of four lower-case
    /// hexadecimal digits, separated by colons (without shortening runs of zeros)
    pub fn to_text(&self) -> (t: [u8; 39])
        ensures
            t@ == address_text(self.octets()),
    {
        let mut t = [58u8; 39];
        let mut i: usize = 0;
        while i < 16
            invariant
                i <= 16,
                t@.len() == 39,
                self.inner@.len() == 16,
                forall|j: int|
                    0 <= j < 39 ==> #[trigger] t@[j] == if j % 5 != 4 && text_byte_index(j) < i {
                        address_text(self.inner@)[j]
                    } else {
                        58u8
                    },
            decreases 16 - i,
        {
            let b = self.inner[i];
            let pos: usize = (i / 2) * 5 + (i % 2) * 2;
            let high = hex_lower(b / 16);
            let low = hex_lower(b % 16);
            t[pos] = high;
            t[pos + 1] = low;
            i = i + 1;
        }
        assert(t@ =~= address_text(self.inner@));
        t
    }

    /// Whether this is the unspecified address `::`
    pub fn is_unspecified(&self) -> (r: bool)
        ensures
            r == spec_is_unspecified(self.octets()),
            r == (forall|i: int| 0 <= i < 16 ==> self.octets()[i] == 0),
    {
        proof {
            law_address_classes(self.inner@);
        }
        let mut i: usize = 0;
        while i < 16
            invariant
                i <= 16,
                self.inner@.len() == 16,
                forall|j: int| 0 <= j < i ==> self.inner@[j] == 0,
            decreases 16 - i,
        {
            if self.inner[i] != 0 {
                assert(self.octets()[i as int] != 0);
                return false;
            }
            i = i + 1;
        }
        true
    }

    /// Whether this is the loopback address `::1`
    pub fn is_loopback(&self) -> (r: bool)
        ensures
            r == spec_is_loopback(self.octets()),
            r == ((forall|i: int| 0 <= i < 15 ==> self.octets()[i] == 0) && self.octets()[15] == 1),
    {
        proof {
            law_address_classes(self.inner@);
        }
        let mut i: usize = 0;
        while i < 15
            invariant
                i <= 15,
                self.inner@.len() == 16,
                forall|j: int| 0 <= j < i ==> self.inner@[j] == 0,
            decreases 15 - i,
        {
            if self.inner[i] != 0 {
                assert(self.octets()[i as int] != 0);
                return false;
            }
            i = i + 1;
        }
        self.inner[15] == 1
    }

    /// Whether this is a multicast address
    pub fn is_multicast(&self) -> (r: bool)
        ensures
            r == spec_is_multicast(self.octets()),
            r == (self.octets()[0] == 0xff),
    {
        proof {
            law_address_classes(self.inner@);
        }
        self.inner[0] == 0xff
    }

    /// Whether this is a link-local address
    pub fn is_link_local(&self) -> (r: bool)
        ensures
            r == spec_is_link_local(self.octets()),
            r == ((self.octets()[0] == 0xfe && self.octets()[1] == 0x80 && (forall|i: int|
                2 <= i < 8 ==> self.octets()[i] == 0)) || (self.octets()[0] == 0xff
                && self.octets()[1] % 16 == 2)),
    {
        proof {
            law_address_classes(self.inner@);
        }
        if self.inner[0] == 0xfe && self.inner[1] == 0x80 {
            let mut i: usize = 2;
            let mut zero = true;
            while i < 8
                invariant
                    2 <= i <= 8,
                    self.inner@.len() == 16,
                    self.inner@[0] == 0xfe && self.inner@[1] == 0x80,
                    zero == forall|j: int| 2 <= j < i ==> self.inner@[j] == 0,
                decreases 8 - i,
            {
                if self.inner[i] != 0 {
                    zero = false;
                }
                i = i + 1;
            }
            if zero {
                return true;
            }
        }
        self.is_multicast() && self.inner[1] % 16 == 2
    }
}

/// The length of an IPv6 header in bytes
pub const HEADER_LEN: usize = 40;

/// Big-endian value of two bytes
pub open spec fn be16(hi: u8, lo: u8) -> int {
    hi as int * 256 + lo as int
}

/// An IPv6 header (the fixed 40 byte part)
pub struct Header {
    v_tc_fl: [u8; 4],
    len: [u8; 2],
    nh: u8,
    hl: u8,
    src: Address,
    dst: Address,
}

impl Header {
    /// The header's 40 bytes in wire order
    pub closed spec fn wire(self) -> Seq<u8> {
        self.v_tc_fl@ + self.len@ + seq![self.nh, self.hl] + self.src.octets() + self.dst.octets()
    }

    /// Read the header from the start of a packet's data
    ///
    /// This is None if the data is shorter than a header.
    pub fn from_bytes(data: &[u8]) -> (r: Option<Header>)
        ensures
            r is Some <==> data@.len() >= HEADER_LEN,
            r matches Some(h) ==> h.wire() == data@.take(HEADER_LEN as int),
    {
        if data.len() < HEADER_LEN {
            return None;
        }
        let mut src = [0u8; 16];
        let mut dst = [0u8; 16];
        let mut i: usize = 0;
        while i < 16
            invariant
                i <= 16,
                data@.len() >= HEADER_LEN,
                forall|j: int| 0 <= j < i ==> src@[j] == data@[8 + j],
                forall|j: int| 0 <= j < i ==> dst@[j] == data@[24 + j],
            decreases 16 - i,
        {
            src[i] = data[8 + i];
            dst[i] = data[24 + i];
            i = i + 1;
        }
        let h = Header {
            v_tc_fl: [data[0], data[1], data[2], data[3]],
            len: [data[4], data[5]],
            nh: data[6],
            hl: data[7],
            src: Address::from_octets(src),
            dst: Address::from_octets(dst),
        };
        assert(h.wire() =~= data@.take(HEADER_LEN as int));
        Some(h)
    }

    /// The source address
    pub fn src(&self) -> (a: &Address)
        ensures
            a.octets() == self.wire().subrange(8, 24),
    {
        assert(self.wire().subrange(8, 24) =~= self.src.octets());
        &self.src
    }

    /// The destination address
    pub fn dst(&self) -> (a: &Address)
        ensures
            a.octets() == self.wire().subrange(24, 40),
    {
        assert(self.wire().subrange(24, 40) =~= self.dst.octets());
        &self.dst
    }

    /// The payload length field
    pub fn len(&self) -> (l: u16)
        ensures
            l == be16(self.wire()[4], self.wire()[5]),
    {
        (self.len[0] as u16) * 256 + self.len[1] as u16
    }

    /// The next header field
    pub fn next_header(&self) -> (nh: u8)
        ensures
            nh == self.wire()[6],
    {
        self.nh
    }

    /// The hop limit field
    pub fn hop_limit(&self) -> (hl: u8)
        ensures
            hl == self.wire()[7],
    {
        self.hl
    }

    /// The version, traffic class and flow label bytes
    pub fn version_trafficclass_flowlabel(&self) -> (v: &[u8; 4])
        ensures
            v@ == self.wire().take(4),
    {
        assert(self.wire().take(4) =~= self.v_tc_fl@);
        &self.v_tc_fl
    }

    /// The version, traffic class and flow label bytes as eight lower-case hexadecimal digits,
    /// as the header's debug output shows them
    pub fn version_trafficclass_flowlabel_text(&self) -> (t: [u8; 8])
        ensures
            t@ == hex_text(self.wire().take(4)),
    {
        let v = self.version_trafficclass_flowlabel();
        let t = encode_hex4(v);
        assert(t@ =~= hex_text(self.wire().take(4)));
        t
    }
}

/// The lower-case hexadecimal text of `bytes`: two digits per byte, high nibble first
pub open spec fn hex_text(bytes: Seq<u8>) -> Seq<u8> {
    Seq::new(
        2 * bytes.len(),
        |j: int|
            if j % 2 == 0 {
                spec_hex_lower((bytes[j / 2] / 16) as int)
            } else {
                spec_hex_lower((bytes[j / 2] % 16) as int)
            },
    )
}

/// Calls `hex::encode_to_slice` on four bytes with an eight-byte output, whose length fits, so
/// that the call succeeds: each byte becomes two digits of `0123456789abcdef`, high nibble first.
#[verifier::external_body]
fn encode_hex4(bytes: &[u8; 4]) -> (t: [u8; 8])
    ensures
        t@ == hex_text(bytes@),
{
    let mut t = [0u8; 8];
    let _ = hex::encode_to_slice(bytes, &mut t);
    t
}

/// The character that separates an address from its interface identifier (as in `fe80::1%6`)
pub const ZONE_SEPARATOR: u8 = 37u8;

/// Whether `b` is an ASCII decimal digit
pub open spec fn is_digit(b: u8) -> bool {
    48 <= b <= 57
}

/// The value of a sequence of ASCII decimal digits, most significant first
pub open spec fn decimal_value(digits: Seq<u8>) -> int
    decreases digits.len(),
{
    if digits.len() == 0 {
        0
    } else {
        decimal_value(digits.drop_last()) * 10 + (digits.last() - 48)
    }
}

/// Whether all of `digits` are ASCII decimal digits
pub open spec fn all_digits(digits: Seq<u8>) -> bool {
    forall|i: int| 0 <= i < digits.len() ==> is_digit(#[trigger] digits[i])
}

/// The length of the sign (`+` or `-`) that `s` starts with, if any
pub open spec fn sign_len(s: Seq<u8>) -> int {
    if s.len() > 0 && (s[0] == 45 || s[0] == 43) {
        1
    } else {
        0
    }
}

/// The value of an optionally signed decimal number
pub open spec fn signed_value(s: Seq<u8>) -> int {
    if s.len() > 0 && s[0] == 45 {
        -decimal_value(s.skip(sign_len(s)))
    } else {
        decimal_value(s.skip(sign_len(s)))
    }
}

/// The number that the text `s` denotes as an `i16` in Rust's notation for integers: an optional
/// `+` or `-`, then one or more decimal digits, with a value in the range of the type
pub open spec fn parsed_i16(s: Seq<u8>) -> Option<i16> {
    let digits = s.skip(sign_len(s));
    if digits.len() > 0 && all_digits(digits) && i16::MIN <= signed_value(s) <= i16::MAX {
        Some(signed_value(s) as i16)
    } else {
        None
    }
}

proof fn lemma_decimal_value_prefix(digits: Seq<u8>, i: int)
    requires
        0 <= i <= digits.len(),
        all_digits(digits),
    ensures
        decimal_value(digits.take(i)) <= decimal_value(digits),
        decimal_value(digits) >= 0,
    decreases digits.len(),
{
    if digits.len() > 0 {
        let shorter = digits.drop_last();
        assert(all_digits(shorter)) by {
            assert forall|j: int| 0 <= j < shorter.len() implies is_digit(#[trigger] shorter[j]) by {
                assert(shorter[j] == digits[j]);
            }
        }
        if i < digits.len() {
            assert(digits.take(i) =~= shorter.take(i));
            lemma_decimal_value_prefix(shorter, i);
        } else {
            assert(digits.take(i) =~= digits);
            lemma_decimal_value_prefix(shorter, 0);
        }
    }
}

/// The value of a nonempty run of decimal digits, when it is at most 32768 (the magnitude of
/// the smallest `i16`)
fn parse_magnitude(d: &[u8]) -> (r: Option<u32>)
    ensures
        r matches Some(v) ==> d@.len() > 0 && all_digits(d@) && v == decimal_value(d@) && v <= 32768,
        r is None ==> !(d@.len() > 0 && all_digits(d@)) || decimal_value(d@) > 32768,
{
    if d.len() == 0 {
        return None;
    }
    let mut value: u32 = 0;
    let mut i: usize = 0;
    while i < d.len()
        invariant
            i <= d.len(),
            forall|j: int| 0 <= j < i ==> is_digit(#[trigger] d@[j]),
            value == decimal_value(d@.take(i as int)),
            value <= 32768,
        decreases d.len() - i,
    {
        let b = d[i];
        if b < 48u8 || b > 57u8 {
            assert(!is_digit(d@[i as int]));
            return None;
        }
        proof {
            assert(d@.take(i + 1).drop_last() =~= d@.take(i as int));
        }
        let next: u32 = value * 10 + (b - 48u8) as u32;
        if next > 32768 {
            proof {
                if all_digits(d@) {
                    lemma_decimal_value_prefix(d@, i + 1);
                }
            }
            return None;
        }
        value = next;
        i = i + 1;
    }
    proof {
        assert(d@.take(i as int) =~= d@);
    }
    Some(value)
}

/// Read an interface identifier (a thread number, `kernel_pid_t`) the way Rust parses an `i16`
/// from text: an optional sign and at least one decimal digit, in range
pub fn parse_kernel_pid(s: &[u8]) -> (r: Option<i16>)
    ensures
        r == parsed_i16(s@),
{
    let negative = s.len() > 0 && s[0] == 45u8;
    let start: usize = if s.len() > 0 && (s[0] == 45u8 || s[0] == 43u8) {
        1
    } else {
        0
    };
    let digits = &s[start..s.len()];
    assert(digits@ =~= s@.skip(sign_len(s@)));
    match parse_magnitude(digits) {
        None => {
            proof {
                if digits@.len() > 0 && all_digits(digits@) {
                    lemma_decimal_value_prefix(digits@, 0);
                }
            }
            None
        },
        Some(v) => {
            if negative {
                Some((0i32 - v as i32) as i16)
            } else if v <= 32767 {
                Some(v as i16)
            } else {
                None
            }
        },
    }
}

/// The longest text of a plain address: 32 hexadecimal digits and 7 colons
pub const MAX_ADDRESS_TEXT: usize = 39;

/// The text of an address, followed by zero bytes, in a buffer as RIOT's address parser takes
/// it; `None` for a text that is too long to be a plain address.
pub fn address_text_buffer(text: &[u8]) -> (r: Option<[u8; 40]>)
    ensures
        text@.len() > MAX_ADDRESS_TEXT ==> r is None,
        text@.len() <= MAX_ADDRESS_TEXT ==> (r matches Some(buf) && buf@.take(text@.len() as int)
            == text@ && forall|i: int| text@.len() <= i < 40 ==> buf@[i] == 0),
{
    if text.len() > MAX_ADDRESS_TEXT {
        return None;
    }
    let mut buf = [0u8; 40];
    let mut i: usize = 0;
    while i < text.len()
        invariant
            i <= text.len() <= MAX_ADDRESS_TEXT,
            buf@.len() == 40,
            forall|j: int| 0 <= j < i ==> buf@[j] == text@[j],
            forall|j: int| i <= j < 40 ==> buf@[j] == 0,
        decreases text.len() - i,
    {
        buf[i] = text[i];
        i = i + 1;
    }
    assert(buf@.take(text@.len() as int) =~= text@);
    Some(buf)
}

/// Split a textual address like `fe80::1%42` at its first `%` into the address and the interface
/// identifier; without a `%`, all of it is the address.
pub fn split_zone(input: &[u8]) -> (r: (&[u8], Option<&[u8]>))
    ensures
        (forall|i: int| 0 <= i < input@.len() ==> input@[i] != ZONE_SEPARATOR) ==> r.0@
            == input@ && r.1 is None,
        forall|k: int|
            0 <= k < input@.len() && input@[k] == ZONE_SEPARATOR && (forall|i: int|
                0 <= i < k ==> input@[i] != ZONE_SEPARATOR) ==> r.0@ == input@.take(k) && (r.1 matches Some(z) && z@ == input@.skip(k + 1)),
{
    let mut k: usize = 0;
    while k < input.len()
        invariant
            k <= input.len(),
            forall|i: int| 0 <= i < k ==> input@[i] != ZONE_SEPARATOR,
        decreases input.len() - k,
    {
        if input[k] == ZONE_SEPARATOR {
            return (&input[0..k], Some(&input[k + 1..input.len()]));
        }
        k = k + 1;
    }
    (input, None)
}

/// Combine the parsed address part of a textual address and its interface identifier text (see
/// [split_zone]) into the address and the interface number, or an error message: first on an
/// address that did not parse, then on an interface identifier that is not a number.
pub fn split_address_outcome(address: Option<Address>, interface: Option<&[u8]>) -> (r: Result<
    (Address, Option<i16>),
    &'static str,
>)
    ensures
        address is None ==> r == Err::<(Address, Option<i16>), &'static str>("Unparsable address"),
        address matches Some(a) ==> match interface {
            None => r == Ok::<(Address, Option<i16>), &'static str>((a, None)),
            Some(z) => match parsed_i16(z@) {
                Some(n) => r == Ok::<(Address, Option<i16>), &'static str>((a, Some(n))),
                None => r == Err::<(Address, Option<i16>), &'static str>(
                    "Non-numeric interface identifier",
                ),
            },
        },
{
    match address {
        None => Err("Unparsable address"),
        Some(a) => match interface {
            None => Ok((a, None)),
            Some(z) => match parse_kernel_pid(z) {
                Some(n) => Ok((a, Some(n))),
                None => Err("Non-numeric interface identifier"),
            },
        },
    }
}

/// How RIOT classifies an address by its octets: it is multicast exactly when its first octet is
/// 0xff (whatever the flags and scope in the second octet); unspecified when all octets are zero;
/// loopback when it is `::1`; link-local when it is unicast in `fe80::/64` or multicast with the
/// link-local scope 2 in the low nibble of the second octet.
pub proof fn law_address_classes(a: Seq<u8>)
    requires
        a.len() == 16,
    ensures
        spec_is_multicast(a) <==> a[0] == 0xff,
        spec_is_unspecified(a) <==> (forall|i: int| 0 <= i < 16 ==> a[i] == 0),
        spec_is_loopback(a) <==> ((forall|i: int| 0 <= i < 15 ==> a[i] == 0) && a[15] == 1),
        spec_is_link_local(a) <==> ((a[0] == 0xfe && a[1] == 0x80 && (forall|i: int|
            2 <= i < 8 ==> a[i] == 0)) || (a[0] == 0xff && a[1] % 16 == 2)),
{
}

/// The loopback address is neither unspecified, multicast nor link-local.
pub proof fn law_loopback_classification(a: Seq<u8>)
    requires
        a.len() == 16,
        spec_is_loopback(a),
    ensures
        !spec_is_unspecified(a),
        !spec_is_multicast(a),
        !spec_is_link_local(a),
{
    assert(a[15] == 1);
    assert(a[0] == 0);
}

/// A multicast address is never unspecified or loopback.
pub proof fn law_multicast_is_not_unspecified(a: Seq<u8>)
    requires
        a.len() == 16,
        spec_is_multicast(a),
    ensures
        !spec_is_unspecified(a),
        !spec_is_loopback(a),
{
    assert(a[0] == 0xff);
}

} // verus!
