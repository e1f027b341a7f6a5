//! Ethereum values held as plain bytes: 256-bit unsigned integers,
//! 20-byte addresses and 32-byte hashes, with their textual forms.
//! The arithmetic, hashing and formatting are alloy's, reached through
//! the trusted wrappers below.

use vstd::prelude::*;

verus! {

/// The number that a big-endian byte sequence denotes.
pub open spec fn be_value(s: Seq<u8>) -> nat
    decreases s.len(),
{
    if s.len() == 0 {
        0
    } else {
        be_value(s.drop_last()) * 256 + s.last() as nat
    }
}

/// 2^256.
pub open spec fn u256_modulus() -> nat {
    115792089237316195423570985008687907853269984665640564039457584007913129639936nat
}

/// A 256-bit unsigned integer, as 32 big-endian bytes.
#[derive(Clone, Copy, Debug, PartialEq, Eq)]
pub struct U256 {
    pub be: [u8; 32],
}

impl View for U256 {
    type V = nat;

    open spec fn view(&self) -> nat {
        be_value(self.be@)
    }
}

/// A 20-byte Ethereum account or contract address.
#[derive(Clone, Copy, Debug, PartialEq, Eq)]
pub struct Address {
    pub bytes: [u8; 20],
}

impl View for Address {
    type V = Seq<u8>;

    open spec fn view(&self) -> Seq<u8> {
        self.bytes@
    }
}

/// A 32-byte hash, such as a transaction hash or a log topic.
#[derive(Clone, Copy, Debug, PartialEq, Eq)]
pub struct B256 {
    pub bytes: [u8; 32],
}

impl View for B256 {
    type V = Seq<u8>;

    open spec fn view(&self) -> Seq<u8> {
        self.bytes@
    }
}

// ---------------------------------------------------------------------
// Decimal and hexadecimal text
// ---------------------------------------------------------------------

/// The ASCII digit for `d < 10`.
pub open spec fn digit_char(d: nat) -> char {
    (d + 48) as char
}

/// The decimal representation of `n`, without leading zeros.
pub open spec fn decimal(n: nat) -> Seq<char>
    decreases n,
{
    if n < 10 {
        seq![digit_char(n)]
    } else {
        decimal(n / 10).push(digit_char(n % 10))
    }
}

/// `s` padded on the left with `'0'` up to `width` characters.
pub open spec fn zero_pad(s: Seq<char>, width: nat) -> Seq<char> {
    if s.len() < width {
        Seq::new((width - s.len()) as nat, |i: int| '0') + s
    } else {
        s
    }
}

/// The value of a hexadecimal digit, either case.
pub open spec fn hex_digit_value(c: char) -> Option<nat> {
    if '0' <= c && c <= '9' {
        Some((c as nat - 48) as nat)
    } else if 'a' <= c && c <= 'f' {
        Some((c as nat - 87) as nat)
    } else if 'A' <= c && c <= 'F' {
        Some((c as nat - 55) as nat)
    } else {
        None
    }
}

/// The lower-case hexadecimal digit for `d < 16`.
pub open spec fn hex_digit_lower(d: nat) -> char {
    if d < 10 {
        (d + 48) as char
    } else {
        (d + 87) as char
    }
}

/// `s` without a leading `0x` or `0X`.
pub open spec fn strip_hex_prefix(s: Seq<char>) -> Seq<char> {
    if s.len() >= 2 && s[0] == '0' && (s[1] == 'x' || s[1] == 'X') {
        s.skip(2)
    } else {
        s
    }
}

/// The bytes that pairs of hexadecimal digits denote.
pub open spec fn hex_bytes(body: Seq<char>) -> Seq<u8> {
    Seq::new(
        body.len() / 2,
        |i: int|
            (hex_digit_value(body[2 * i]).unwrap() * 16 + hex_digit_value(
                body[2 * i + 1],
            ).unwrap()) as u8,
    )
}

/// Decoding of exactly `n` bytes from hexadecimal text with an optional
/// `0x` prefix, as alloy's fixed-size `FromStr` does it.
pub open spec fn decode_hex_exact(s: Seq<char>, n: nat) -> Option<Seq<u8>> {
    let body = strip_hex_prefix(s);
    if body.len() == 2 * n && (forall|i: int|
        0 <= i < body.len() ==> #[trigger] hex_digit_value(body[i]) is Some) {
        Some(hex_bytes(body))
    } else {
        None
    }
}

/// Lower-case hexadecimal text of `bytes`, two digits per byte.
pub open spec fn hex_lower(bytes: Seq<u8>) -> Seq<char> {
    Seq::new(
        2 * bytes.len(),
        |i: int|
            if i % 2 == 0 {
                hex_digit_lower((bytes[i / 2] / 16) as nat)
            } else {
                hex_digit_lower((bytes[i / 2] % 16) as nat)
            },
    )
}

/// `"0x"` followed by the lower-case hexadecimal text of `bytes`.
pub open spec fn hex_prefixed(bytes: Seq<u8>) -> Seq<char> {
    seq!['0', 'x'] + hex_lower(bytes)
}

/// The ASCII bytes of a text made of ASCII characters.
pub open spec fn ascii_bytes(s: Seq<char>) -> Seq<u8> {
    Seq::new(s.len(), |i: int| s[i] as u8)
}

/// The keccak-256 digest of `data`, as alloy computes it.
pub uninterp spec fn keccak256_of(data: Seq<u8>) -> Seq<u8>;

/// EIP-55 mixed-case checksum text of an address: the lower-case hex
/// digit `i` is upper-cased when it is a letter and nibble `i` of the
/// keccak-256 digest of the lower-case text is at least 8.
pub open spec fn checksum_text(addr: Seq<u8>) -> Seq<char> {
    let lower = hex_lower(addr);
    let hash = keccak256_of(ascii_bytes(lower));
    seq!['0', 'x'] + Seq::new(
        lower.len(),
        |i: int|
            {
                let nibble = if i % 2 == 0 {
                    hash[i / 2] / 16
                } else {
                    hash[i / 2] % 16
                };
                if 'a' <= lower[i] && lower[i] <= 'f' && nibble >= 8 {
                    (lower[i] as nat - 32) as char
                } else {
                    lower[i]
                }
            },
    )
}

// ---------------------------------------------------------------------
// Trusted calls into alloy
// ---------------------------------------------------------------------

/// alloy's `U256::from(u64)`: the same number as a 256-bit integer.
#[verifier::external_body]
pub(crate) fn u256_from_u64(x: u64) -> (r: U256)
    ensures
        r@ == x as nat,
{
    U256 { be: alloy_primitives::U256::from(x).to_be_bytes::<32>() }
}

/// alloy's `U256::from(u128)`: the same number as a 256-bit integer.
#[verifier::external_body]
pub(crate) fn u256_from_u128(x: u128) -> (r: U256)
    ensures
        r@ == x as nat,
{
    U256 { be: alloy_primitives::U256::from(x).to_be_bytes::<32>() }
}

/// alloy's `U256::is_zero`.
#[verifier::external_body]
pub(crate) fn u256_is_zero(a: &U256) -> (b: bool)
    ensures
        b == (a@ == 0),
{
    alloy_primitives::U256::from_be_bytes(a.be).is_zero()
}

/// alloy's `U256` division (`/`), which panics on a zero divisor.
#[verifier::external_body]
pub(crate) fn u256_div(a: &U256, b: &U256) -> (r: U256)
    requires
        b@ != 0,
    ensures
        r@ == a@ / b@,
{
    let q = alloy_primitives::U256::from_be_bytes(a.be) / alloy_primitives::U256::from_be_bytes(
        b.be,
    );
    U256 { be: q.to_be_bytes::<32>() }
}

/// alloy's `U256` remainder (`%`), which panics on a zero divisor.
#[verifier::external_body]
pub(crate) fn u256_rem(a: &U256, b: &U256) -> (r: U256)
    requires
        b@ != 0,
    ensures
        r@ == a@ % b@,
{
    let m = alloy_primitives::U256::from_be_bytes(a.be) % alloy_primitives::U256::from_be_bytes(
        b.be,
    );
    U256 { be: m.to_be_bytes::<32>() }
}

/// `u64::try_from` on alloy's `U256`: the number when it fits in 64 bits.
#[verifier::external_body]
pub(crate) fn u256_to_u64(a: &U256) -> (r: Option<u64>)
    ensures
        match r {
            Some(v) => v as nat == a@,
            None => a@ > u64::MAX,
        },
{
    u64::try_from(alloy_primitives::U256::from_be_bytes(a.be)).ok()
}

/// alloy's `Display` of a `U256`: its decimal digits.
#[verifier::external_body]
pub(crate) fn u256_to_string(a: &U256) -> (s: String)
    ensures
        s@ == decimal(a@),
{
    alloy_primitives::U256::from_be_bytes(a.be).to_string()
}

/// alloy's `Display` of a `U256` under a zero-padding width (`{:0w$}`).
#[verifier::external_body]
pub(crate) fn u256_to_string_padded(a: &U256, width: usize) -> (s: String)
    ensures
        s@ == zero_pad(decimal(a@), width as nat),
{
    format!("{:0w$}", alloy_primitives::U256::from_be_bytes(a.be), w = width)
}

/// Whether `c` may stand in a decimal number that alloy's
/// `U256::from_str_radix(_, 10)` reads: a digit or `'_'`, which it skips.
pub open spec fn is_decimal_or_underscore(c: char) -> bool {
    ('0' <= c && c <= '9') || c == '_'
}

/// The number that the digits of `s` denote, skipping `'_'`.
pub open spec fn decimal_value(s: Seq<char>) -> nat
    decreases s.len(),
{
    if s.len() == 0 {
        0
    } else if s.last() == '_' {
        decimal_value(s.drop_last())
    } else {
        (decimal_value(s.drop_last()) * 10 + (s.last() as nat - 48)) as nat
    }
}

/// What `U256::from_str_radix(s, 10)` yields: the value when every
/// character is a digit or `'_'` and the value is below 2^256 (the empty
/// text reads as zero), else nothing.
pub open spec fn parse_u256_decimal(s: Seq<char>) -> Option<nat> {
    if (forall|i: int| 0 <= i < s.len() ==> is_decimal_or_underscore(#[trigger] s[i]))
        && decimal_value(s) < u256_modulus() {
        Some(decimal_value(s))
    } else {
        None
    }
}

/// The error text of `U256::from_str_radix(s, 10)` where it is settled:
/// text of digits and `'_'` alone fails only by overflow; otherwise, when
/// the first other character is ASCII and the digits before it stay below
/// 2^256, that character is reported as an invalid digit. (When it is not
/// ASCII, ruint reports the first byte of its UTF-8 encoding; when the
/// digits before it overflow, which of the two comes first depends on how
/// ruint groups digits; neither is stated.)
pub open spec fn decimal_error_text(s: Seq<char>) -> Option<Seq<char>> {
    if forall|i: int| 0 <= i < s.len() ==> is_decimal_or_underscore(#[trigger] s[i]) {
        Some("the value is too large to fit the target type"@)
    } else {
        let i = choose|i: int|
            0 <= i < s.len() && !is_decimal_or_underscore(s[i]) && forall|j: int|
                0 <= j < i ==> is_decimal_or_underscore(#[trigger] s[j]);
        if (s[i] as nat) < 128 && decimal_value(s.take(i)) < u256_modulus() {
            Some("invalid digit: "@ + seq![s[i]])
        } else {
            None
        }
    }
}

/// alloy's `U256::from_str_radix(s, 10)`, with ruint's error text on
/// failure (`decimal_error_text` says what of it is stated).
#[verifier::external_body]
pub(crate) fn u256_from_decimal_str(s: &str) -> (r: Result<U256, String>)
    ensures
        match r {
            Ok(v) => parse_u256_decimal(s@) == Some(v@),
            Err(m) => parse_u256_decimal(s@) is None && (decimal_error_text(s@) matches Some(t)
                ==> m@ == t),
        },
{
    match alloy_primitives::U256::from_str_radix(s, 10) {
        Ok(v) => Ok(U256 { be: v.to_be_bytes::<32>() }),
        Err(e) => Err(e.to_string()),
    }
}

/// alloy's `Address::from_str`: 40 hexadecimal digits of either case
/// after an optional `0x`/`0X` prefix.
#[verifier::external_body]
pub(crate) fn address_from_str(s: &str) -> (r: Option<Address>)
    ensures
        match r {
            Some(a) => decode_hex_exact(s@, 20) == Some(a@),
            None => decode_hex_exact(s@, 20) is None,
        },
{
    match s.parse::<alloy_primitives::Address>() {
        Ok(a) => Some(Address { bytes: a.into_array() }),
        Err(_) => None,
    }
}

/// alloy's `Display` of an `Address`: the EIP-55 checksummed text.
#[verifier::external_body]
pub(crate) fn address_to_checksum(a: &Address) -> (s: String)
    ensures
        s@ == checksum_text(a@),
{
    alloy_primitives::Address::from(a.bytes).to_string()
}

/// alloy's `keccak256`.
#[verifier::external_body]
pub(crate) fn keccak256(data: &[u8]) -> (h: B256)
    ensures
        h@ == keccak256_of(data@),
{
    B256 { bytes: alloy_primitives::keccak256(data).0 }
}

/// alloy's `Debug` of a 32-byte hash: `0x` and lower-case hex.
#[verifier::external_body]
pub(crate) fn b256_to_hex(h: &B256) -> (s: String)
    ensures
        s@ == hex_prefixed(h@),
{
    format!("{:?}", alloy_primitives::B256::from(h.bytes))
}


/// Whether two addresses are the same.
pub fn address_eq(a: &Address, b: &Address) -> (r: bool)
    ensures
        r == (a@ == b@),
{
    let mut i: usize = 0;
    while i < 20
        invariant
            i <= 20,
            a@.len() == 20,
            b@.len() == 20,
            forall|k: int| 0 <= k < i ==> a@[k] == b@[k],
        decreases 20 - i,
    {
        if a.bytes[i] != b.bytes[i] {
            return false;
        }
        i = i + 1;
    }
    assert(a@ =~= b@);
    true
}

proof fn lemma_hex_digit_lower(d: nat)
    requires
        d < 16,
    ensures
        hex_digit_value(hex_digit_lower(d)) == Some(d),
        ('a' <= hex_digit_lower(d) && hex_digit_lower(d) <= 'f') ==> hex_digit_value(
            (hex_digit_lower(d) as nat - 32) as char,
        ) == Some(d),
{
}

/// Reading back the checksummed text of an address gives the address:
/// the case changes of EIP-55 leave every digit's value as it was.
pub proof fn law_checksum_text_reads_back(a: Seq<u8>)
    requires
        a.len() == 20,
    ensures
        decode_hex_exact(checksum_text(a), 20) == Some(a),
{
    let t = checksum_text(a);
    let lower = hex_lower(a);
    let body = strip_hex_prefix(t);
    assert(t[0] == '0' && t[1] == 'x');
    assert(body =~= t.skip(2));
    assert(body.len() == 40);
    assert forall|i: int| 0 <= i < body.len() implies hex_digit_value(body[i]) == Some(
        if i % 2 == 0 {
            (a[i / 2] / 16) as nat
        } else {
            (a[i / 2] % 16) as nat
        },
    ) by {
        let d: nat = if i % 2 == 0 {
            (a[i / 2] / 16) as nat
        } else {
            (a[i / 2] % 16) as nat
        };
        assert(lower[i] == hex_digit_lower(d));
        lemma_hex_digit_lower(d);
    }
    assert forall|i: int| 0 <= i < body.len() implies #[trigger] hex_digit_value(body[i]) is Some by {
    }
    assert forall|j: int| 0 <= j < 20 implies #[trigger] hex_bytes(body)[j] == a[j] by {
        assert(hex_digit_value(body[2 * j]) == Some((a[j] / 16) as nat));
        assert(hex_digit_value(body[2 * j + 1]) == Some((a[j] % 16) as nat));
    }
    assert(hex_bytes(body) =~= a);
}

/// An ECDSA signature over secp256k1: `r`, `s` and the y-parity.
#[derive(Clone, Copy, Debug, PartialEq, Eq)]
pub struct Signature {
    pub r: [u8; 32],
    pub s: [u8; 32],
    pub y_parity: bool,
}

/// Whether `v` is a recovery byte alloy accepts: 0, 1, 27, 28, or 35 and above.
pub open spec fn valid_v(v: u8) -> bool {
    v == 0 || v == 1 || v == 27 || v == 28 || v >= 35
}

/// The y-parity that a recovery byte stands for.
pub open spec fn parity_of_v(v: u8) -> bool {
    if v <= 1 {
        v == 1
    } else {
        v % 2 == 0
    }
}

/// What alloy's `Signature::from_str` reads: 65 bytes of hexadecimal text
/// with an optional `0x`, as `r`, `s` and a valid recovery byte.
pub open spec fn signature_of_text(s: Seq<char>) -> Option<(Seq<u8>, Seq<u8>, bool)> {
    match decode_hex_exact(s, 65) {
        Some(b) => if valid_v(b[64]) {
            Some((b.subrange(0, 32), b.subrange(32, 64), parity_of_v(b[64])))
        } else {
            None
        },
        None => None,
    }
}

/// alloy's `Signature::from_str`.
#[verifier::external_body]
pub(crate) fn signature_from_str(text: &str) -> (r: Option<Signature>)
    ensures
        match r {
            Some(sig) => signature_of_text(text@) == Some((sig.r@, sig.s@, sig.y_parity)),
            None => signature_of_text(text@) is None,
        },
{
    match text.parse::<alloy_primitives::Signature>() {
        Ok(sig) => Some(
            Signature {
                r: sig.r().to_be_bytes::<32>(),
                s: sig.s().to_be_bytes::<32>(),
                y_parity: sig.v(),
            },
        ),
        Err(_) => None,
    }
}

/// The address whose key made the signature `(r, s, y_parity)` over the
/// EIP-191 personal-message hash of `message`, as alloy recovers it.
pub uninterp spec fn message_signer(
    r: Seq<u8>,
    s: Seq<u8>,
    y_parity: bool,
    message: Seq<char>,
) -> Option<Seq<u8>>;

/// alloy's `Signature::recover_address_from_msg` on the UTF-8 bytes of
/// `message`.
#[verifier::external_body]
pub(crate) fn recover_address_from_msg(sig: &Signature, message: &str) -> (r: Option<Address>)
    ensures
        match r {
            Some(a) => message_signer(sig.r@, sig.s@, sig.y_parity, message@) == Some(a@),
            None => message_signer(sig.r@, sig.s@, sig.y_parity, message@) is None,
        },
{
    let r = alloy_primitives::U256::from_be_bytes(sig.r);
    let s = alloy_primitives::U256::from_be_bytes(sig.s);
    let signature = alloy_primitives::Signature::new(r, s, sig.y_parity);
    match signature.recover_address_from_msg(message.as_bytes()) {
        Ok(a) => Some(Address { bytes: a.into_array() }),
        Err(_) => None,
    }
}

} // verus!
