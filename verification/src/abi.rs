//! The contract ABI wire format for the calls this library makes:
//! 4-byte selectors, 32-byte words, and the head/tail layout of dynamic
//! strings; and the decoding of static return values.

use vstd::prelude::*;
use vstd::string::StringSliceAdditionalSpecFns;
use vstd::utf8::{decode_utf8, encode_utf8, valid_utf8};
use vstd::slice::slice_subrange;
use crate::primitives::{
    Address, B256, U256, be_value, hex_digit_lower, hex_lower, keccak256, keccak256_of,
    u256_from_u128, u256_from_u64, u256_modulus,
};
use crate::text::push_char;

verus! {

/// Why a return value could not be decoded, as alloy's ABI decoder tells
/// it.
#[derive(Clone, Copy, Debug, PartialEq, Eq)]
pub enum AbiError {
    /// The data is shorter than the value needs.
    Overrun,
    /// An offset or length word holds a number too large for a `usize`.
    OffsetTypeCheck { word: [u8; 32] },
    /// The value would claim more memory than the decoder allows.
    MemoryLimitExceeded,
}

/// A decoding failure as a plain value: the kind, and for an offset word
/// that does not fit, the word.
pub enum DecodeFailure {
    Overrun,
    BadOffset(Seq<u8>),
    MemoryLimit,
}

/// The plain value of a decoding error.
pub open spec fn failure_of(e: AbiError) -> DecodeFailure {
    match e {
        AbiError::Overrun => DecodeFailure::Overrun,
        AbiError::OffsetTypeCheck { word } => DecodeFailure::BadOffset(word@),
        AbiError::MemoryLimitExceeded => DecodeFailure::MemoryLimit,
    }
}

/// The text that alloy's decoder gives for a failure.
pub open spec fn failure_text(f: DecodeFailure) -> Seq<char> {
    match f {
        DecodeFailure::Overrun => "ABI decoding failed: buffer overrun while deserializing"@,
        DecodeFailure::BadOffset(w) => "type check failed for \"offset (usize)\" with data: "@
            + hex_lower(w),
        DecodeFailure::MemoryLimit =>
            "ABI decoding failed: memory limit of 1073741824 bytes exceeded during decoding"@,
    }
}

/// The lower-case hexadecimal digit of `d < 16`.
fn hex_digit_char(d: u8) -> (c: char)
    requires
        d < 16,
    ensures
        c == hex_digit_lower(d as nat),
{
    match d {
        0 => '0',
        1 => '1',
        2 => '2',
        3 => '3',
        4 => '4',
        5 => '5',
        6 => '6',
        7 => '7',
        8 => '8',
        9 => '9',
        10 => 'a',
        11 => 'b',
        12 => 'c',
        13 => 'd',
        14 => 'e',
        _ => 'f',
    }
}

/// The lower-case hexadecimal text of `bytes`, two digits per byte.
pub fn hex_text(bytes: &[u8]) -> (s: String)
    ensures
        s@ == hex_lower(bytes@),
{
    let mut s = String::new();
    let mut k: usize = 0;
    while k < bytes.len()
        invariant
            k <= bytes@.len(),
            s@.len() == 2 * k,
            forall|j: int| 0 <= j < 2 * k ==> #[trigger] s@[j] == hex_lower(bytes@)[j],
        decreases bytes@.len() - k,
    {
        let b = bytes[k];
        let hi = hex_digit_char(b / 16);
        let lo = hex_digit_char(b % 16);
        let ghost before = s@;
        push_char(&mut s, hi);
        push_char(&mut s, lo);
        assert forall|j: int| 0 <= j < 2 * (k + 1) implies #[trigger] s@[j] == hex_lower(bytes@)[j] by {
            if j < 2 * k {
                assert(s@[j] == before[j]);
            } else if j == 2 * k {
                assert(j / 2 == k as int);
                assert(j % 2 == 0);
            } else {
                assert(j / 2 == k as int);
                assert(j % 2 == 1);
            }
        }
        k = k + 1;
    }
    assert(s@ =~= hex_lower(bytes@));
    s
}

impl AbiError {
    /// The text of the error, as alloy's decoder gives it.
    pub open spec fn message_spec(&self) -> Seq<char> {
        failure_text(failure_of(*self))
    }

    /// The text of the error, as alloy's decoder gives it.
    pub fn message(&self) -> (s: String)
        ensures
            s@ == self.message_spec(),
    {
        match self {
            AbiError::Overrun => String::from_str(
                "ABI decoding failed: buffer overrun while deserializing",
            ),
            AbiError::OffsetTypeCheck { word } => {
                let data = hex_text(word);
                String::from_str("type check failed for \"offset (usize)\" with data: ").concat(
                    data.as_str(),
                )
            },
            AbiError::MemoryLimitExceeded => String::from_str(
                "ABI decoding failed: memory limit of 1073741824 bytes exceeded during decoding",
            ),
        }
    }
}

// ---------------------------------------------------------------------
// Specification of the layout
// ---------------------------------------------------------------------

/// The 4-byte selector of a function with the given canonical signature:
/// the first four bytes of the keccak-256 digest of its UTF-8 text.
pub open spec fn selector_of(signature: Seq<char>) -> Seq<u8> {
    keccak256_of(encode_utf8(signature)).take(4)
}

/// The word holding an address: twelve zero bytes, then the address.
pub open spec fn address_word(a: Seq<u8>) -> Seq<u8> {
    Seq::new(12, |i: int| 0u8) + a
}

/// Whether `w` is the 32-byte big-endian word of `n`.
pub open spec fn is_word_of(w: Seq<u8>, n: nat) -> bool {
    w.len() == 32 && be_value(w) == n
}

/// The 32-byte big-endian word of `n < 2^256`.
pub open spec fn word_of(n: nat) -> Seq<u8> {
    choose|w: Seq<u8>| is_word_of(w, n)
}

/// `n` rounded up to a multiple of 32.
pub open spec fn padded_len(n: nat) -> nat {
    ((n + 31) / 32 * 32) as nat
}

/// `b` followed by zero bytes up to a multiple of 32.
pub open spec fn pad32(b: Seq<u8>) -> Seq<u8> {
    b + Seq::new((padded_len(b.len()) - b.len()) as nat, |i: int| 0u8)
}

/// The tail of a dynamic `bytes` or `string` value: its length word, then
/// its bytes padded to whole words.
pub open spec fn dynamic_tail(b: Seq<u8>) -> Seq<u8> {
    word_of(b.len()) + pad32(b)
}

/// The `i`-th 32-byte word of `data`.
pub open spec fn word_at(data: Seq<u8>, i: nat) -> Seq<u8> {
    data.subrange(32 * i as int, 32 * i as int + 32)
}

/// The address that a word holds: its last twenty bytes.
pub open spec fn word_address(w: Seq<u8>) -> Seq<u8> {
    w.subrange(12, 32)
}

/// The return value of a function returning one `uint256`: the first
/// word, when the data holds one.
pub open spec fn uint256_return(data: Seq<u8>) -> Option<Seq<u8>> {
    if data.len() >= 32 {
        Some(word_at(data, 0))
    } else {
        None
    }
}

/// Whether a word has a byte that is not zero: how a `bool` word reads.
pub open spec fn word_nonzero(w: Seq<u8>) -> bool {
    exists|i: int| 0 <= i < 32 && w[i] != 0
}

/// The return value of a function returning one `bool`: whether the first
/// word is not all zeros.
pub open spec fn bool_return(data: Seq<u8>) -> Option<bool> {
    if data.len() >= 32 {
        Some(exists|i: int| 0 <= i < 32 && data[i] != 0)
    } else {
        None
    }
}

/// The return value of a function returning one `uint8`: the last byte of
/// the first word.
pub open spec fn uint8_return(data: Seq<u8>) -> Option<u8> {
    if data.len() >= 32 {
        Some(data[31])
    } else {
        None
    }
}

// ---------------------------------------------------------------------
// Lemmas on big-endian words
// ---------------------------------------------------------------------

pub proof fn lemma_be_value_injective(a: Seq<u8>, b: Seq<u8>)
    requires
        a.len() == b.len(),
        be_value(a) == be_value(b),
    ensures
        a == b,
    decreases a.len(),
{
    if a.len() > 0 {
        let x = be_value(a.drop_last());
        let y = be_value(b.drop_last());
        assert(x * 256 + a.last() as nat == y * 256 + b.last() as nat);
        assert(a.last() == b.last() && x == y) by (nonlinear_arith)
            requires
                x * 256 + a.last() as nat == y * 256 + b.last() as nat,
                a.last() < 256,
                b.last() < 256,
        ;
        lemma_be_value_injective(a.drop_last(), b.drop_last());
        assert(a =~= a.drop_last().push(a.last()));
        assert(b =~= b.drop_last().push(b.last()));
    } else {
        assert(a =~= b);
    }
}

/// A word that holds `n` is the word of `n`.
pub proof fn lemma_word_of(w: Seq<u8>, n: nat)
    requires
        is_word_of(w, n),
    ensures
        word_of(n) == w,
{
    let c = word_of(n);
    assert(is_word_of(c, n));
    lemma_be_value_injective(c, w);
}

// ---------------------------------------------------------------------
// Byte-vector helpers
// ---------------------------------------------------------------------

/// Appends the bytes `s` to `out`.
pub fn append_bytes(out: &mut Vec<u8>, s: &[u8])
    ensures
        final(out)@ == old(out)@ + s@,
{
    let ghost start = out@;
    let mut i: usize = 0;
    while i < s.len()
        invariant
            i <= s@.len(),
            out@ == start + s@.subrange(0, i as int),
        decreases s@.len() - i,
    {
        out.push(s[i]);
        i = i + 1;
        assert(out@ =~= start + s@.subrange(0, i as int));
    }
    assert(s@.subrange(0, s@.len() as int) =~= s@);
}

/// Appends `n` zero bytes to `out`.
pub fn append_zeros(out: &mut Vec<u8>, n: usize)
    ensures
        final(out)@ == old(out)@ + Seq::new(n as nat, |i: int| 0u8),
{
    let ghost start = out@;
    let mut i: usize = 0;
    while i < n
        invariant
            i <= n,
            out@ == start + Seq::new(i as nat, |k: int| 0u8),
        decreases n - i,
    {
        out.push(0u8);
        i = i + 1;
        assert(out@ =~= start + Seq::new(i as nat, |k: int| 0u8));
    }
}

/// The 32 bytes of `data` starting at `off`.
pub fn read_word(data: &[u8], off: usize) -> (w: [u8; 32])
    requires
        off + 32 <= data@.len(),
    ensures
        w@ == data@.subrange(off as int, off + 32),
{
    let mut w = [0u8; 32];
    let mut i: usize = 0;
    while i < 32
        invariant
            i <= 32,
            off + 32 <= data.len(),
            w@.len() == 32,
            forall|k: int| 0 <= k < i ==> w@[k] == data@[off + k],
        decreases 32 - i,
    {
        w[i] = data[off + i];
        i = i + 1;
    }
    assert(w@ =~= data@.subrange(off as int, off + 32));
    w
}

/// The address in the last twenty bytes of a word.
pub fn address_of_word(w: &[u8; 32]) -> (a: Address)
    ensures
        a@ == word_address(w@),
{
    let mut b = [0u8; 20];
    let mut i: usize = 0;
    while i < 20
        invariant
            i <= 20,
            b@.len() == 20,
            w@.len() == 32,
            forall|k: int| 0 <= k < i ==> b@[k] == w@[12 + k],
        decreases 20 - i,
    {
        b[i] = w[12 + i];
        i = i + 1;
    }
    assert(b@ =~= word_address(w@));
    Address { bytes: b }
}

// ---------------------------------------------------------------------
// Encoding
// ---------------------------------------------------------------------

/// The selector of the function with the given canonical signature.
pub fn selector(signature: &str) -> (r: Vec<u8>)
    ensures
        r@ == selector_of(signature@),
{
    let h: B256 = keccak256(signature.as_bytes());
    let mut r: Vec<u8> = Vec::new();
    r.push(h.bytes[0]);
    r.push(h.bytes[1]);
    r.push(h.bytes[2]);
    r.push(h.bytes[3]);
    assert(r@ =~= h@.take(4));
    r
}

/// Appends the word of an address.
pub fn push_address_word(out: &mut Vec<u8>, a: &Address)
    ensures
        final(out)@ == old(out)@ + address_word(a@),
{
    append_zeros(out, 12);
    append_bytes(out, &a.bytes);
    assert(final(out)@ =~= old(out)@ + address_word(a@));
}

/// Appends the word of a `usize`.
pub fn push_usize_word(out: &mut Vec<u8>, n: usize)
    ensures
        final(out)@ == old(out)@ + word_of(n as nat),
{
    let v: U256 = u256_from_u64(n as u64);
    proof {
        lemma_word_of(v.be@, n as nat);
    }
    append_bytes(out, &v.be);
}

/// The number of zero bytes that pad `len` bytes to whole words.
pub fn padding_for(len: usize) -> (p: usize)
    ensures
        len + p == padded_len(len as nat),
        p < 32,
{
    (32 - len % 32) % 32
}

/// Appends a dynamic `string` tail: its length word and its UTF-8 bytes
/// padded with zeros to whole words.
pub fn push_dynamic_tail(out: &mut Vec<u8>, b: &[u8])
    ensures
        final(out)@ == old(out)@ + dynamic_tail(b@),
{
    push_usize_word(out, b.len());
    append_bytes(out, b);
    let pad = padding_for(b.len());
    append_zeros(out, pad);
    assert(final(out)@ =~= old(out)@ + dynamic_tail(b@));
}

/// Calldata of a function that takes no arguments: its selector alone.
pub fn encode_call(signature: &str) -> (r: Vec<u8>)
    ensures
        r@ == selector_of(signature@),
{
    selector(signature)
}

/// Calldata of a function taking one `address`.
pub fn encode_call_address(signature: &str, a: &Address) -> (r: Vec<u8>)
    ensures
        r@ == selector_of(signature@) + address_word(a@),
{
    let mut r = selector(signature);
    push_address_word(&mut r, a);
    r
}

/// Calldata of a function taking one `uint256`.
pub fn encode_call_uint(signature: &str, v: &U256) -> (r: Vec<u8>)
    ensures
        r@ == selector_of(signature@) + v.be@,
{
    let mut r = selector(signature);
    append_bytes(&mut r, &v.be);
    r
}

/// Calldata of a function taking two `uint256`.
pub fn encode_call_uint_uint(signature: &str, v: &U256, w: &U256) -> (r: Vec<u8>)
    ensures
        r@ == selector_of(signature@) + v.be@ + w.be@,
{
    let mut r = selector(signature);
    append_bytes(&mut r, &v.be);
    append_bytes(&mut r, &w.be);
    r
}

/// The argument encoding of `(uint256, uint256, uint256, string, string)`:
/// three words, the two string offsets (counted from the start of the
/// arguments), then the two string tails.
pub open spec fn uint3_string2_args(
    a: Seq<u8>,
    b: Seq<u8>,
    c: Seq<u8>,
    s: Seq<u8>,
    t: Seq<u8>,
) -> Seq<u8> {
    a + b + c + word_of(160) + word_of(160 + 32 + padded_len(s.len())) + dynamic_tail(s)
        + dynamic_tail(t)
}

/// Calldata of a function taking `(uint256, uint256, uint256, string, string)`.
pub fn encode_call_uint3_string2(
    signature: &str,
    a: &U256,
    b: &U256,
    c: &U256,
    s: &str,
    t: &str,
) -> (r: Vec<u8>)
    ensures
        r@ == selector_of(signature@) + uint3_string2_args(
            a.be@,
            b.be@,
            c.be@,
            s.spec_bytes(),
            t.spec_bytes(),
        ),
{
    let sb = s.as_bytes();
    let tb = t.as_bytes();
    let mut r = selector(signature);
    append_bytes(&mut r, &a.be);
    append_bytes(&mut r, &b.be);
    append_bytes(&mut r, &c.be);
    push_usize_word(&mut r, 160);
    let second: u128 = 192 + sb.len() as u128 + padding_for(sb.len()) as u128;
    let second_word = u256_from_u128(second);
    proof {
        lemma_word_of(second_word.be@, (160 + 32 + padded_len(sb@.len())) as nat);
    }
    append_bytes(&mut r, &second_word.be);
    push_dynamic_tail(&mut r, sb);
    push_dynamic_tail(&mut r, tb);
    assert(r@ =~= selector_of(signature@) + uint3_string2_args(
        a.be@,
        b.be@,
        c.be@,
        s.spec_bytes(),
        t.spec_bytes(),
    ));
    r
}

// ---------------------------------------------------------------------
// Decoding of static return values
// ---------------------------------------------------------------------

/// Decodes the return data of a function returning one `uint256`.
pub fn decode_uint256_return(data: &[u8]) -> (r: Result<U256, AbiError>)
    ensures
        match r {
            Ok(v) => uint256_return(data@) == Some(v.be@),
            Err(e) => uint256_return(data@) is None && e == AbiError::Overrun,
        },
{
    if data.len() < 32 {
        return Err(AbiError::Overrun);
    }
    let w = read_word(data, 0);
    Ok(U256 { be: w })
}

/// Decodes the return data of a function returning one `bool`.
pub fn decode_bool_return(data: &[u8]) -> (r: Result<bool, AbiError>)
    ensures
        match r {
            Ok(v) => bool_return(data@) == Some(v),
            Err(e) => bool_return(data@) is None && e == AbiError::Overrun,
        },
{
    if data.len() < 32 {
        return Err(AbiError::Overrun);
    }
    let mut i: usize = 0;
    while i < 32
        invariant
            i <= 32,
            data@.len() >= 32,
            forall|k: int| 0 <= k < i ==> data@[k] == 0,
        decreases 32 - i,
    {
        if data[i] != 0 {
            return Ok(true);
        }
        i = i + 1;
    }
    Ok(false)
}

/// Decodes the return data of a function returning one `uint8`.
pub fn decode_uint8_return(data: &[u8]) -> (r: Result<u8, AbiError>)
    ensures
        match r {
            Ok(v) => uint8_return(data@) == Some(v),
            Err(e) => uint8_return(data@) is None && e == AbiError::Overrun,
        },
{
    if data.len() < 32 {
        return Err(AbiError::Overrun);
    }
    Ok(data[31])
}


// ---------------------------------------------------------------------
// Offsets and dynamic values
// ---------------------------------------------------------------------

/// The bytes of memory that a decoding may claim before it is refused.
pub const DECODE_MEMORY_LIMIT: usize = 1073741824;

/// 256^n.
pub open spec fn pow256(n: nat) -> nat
    decreases n,
{
    if n == 0 {
        1
    } else {
        256 * pow256((n - 1) as nat)
    }
}

pub proof fn lemma_pow256_positive(n: nat)
    ensures
        pow256(n) >= 1,
    decreases n,
{
    if n > 0 {
        lemma_pow256_positive((n - 1) as nat);
    }
}

/// The value of `a` followed by `b`.
pub proof fn lemma_be_value_append(a: Seq<u8>, b: Seq<u8>)
    ensures
        be_value(a + b) == be_value(a) * pow256(b.len()) + be_value(b),
    decreases b.len(),
{
    if b.len() == 0 {
        assert(a + b =~= a);
        assert(pow256(0) == 1);
        assert(be_value(b) == 0);
    } else {
        let b0 = b.drop_last();
        assert((a + b).drop_last() =~= a + b0);
        assert((a + b).last() == b.last());
        lemma_be_value_append(a, b0);
        assert(be_value(a + b) == be_value(a + b0) * 256 + b.last() as nat);
        assert(be_value(b) == be_value(b0) * 256 + b.last() as nat);
        let x = be_value(a);
        let p = pow256(b0.len());
        let y = be_value(b0);
        assert(pow256(b.len()) == 256 * p);
        assert((x * p + y) * 256 + b.last() as nat == x * (256 * p) + (y * 256 + b.last() as nat))
            by (nonlinear_arith);
        assert(be_value(a + b0) == x * p + y);
        assert(be_value(a + b) == x * (256 * p) + be_value(b));
    }
}

/// A big-endian value is at least the value of any of its prefixes.
pub proof fn lemma_be_value_prefix(s: Seq<u8>, k: int)
    requires
        0 <= k <= s.len(),
    ensures
        be_value(s) >= be_value(s.take(k)),
{
    assert(s =~= s.take(k) + s.skip(k));
    lemma_be_value_append(s.take(k), s.skip(k));
    lemma_pow256_positive(s.skip(k).len());
    let x = be_value(s.take(k));
    let p = pow256(s.skip(k).len());
    assert(x * p >= x) by (nonlinear_arith)
        requires
            p >= 1,
    ;
}

/// The number in an offset or length word, when it fits in a `usize`.
pub open spec fn offset_value(w: Seq<u8>) -> Option<nat> {
    if be_value(w) <= usize::MAX {
        Some(be_value(w))
    } else {
        None
    }
}

/// Reading the offset or length word at byte `at` of `b`, as alloy's
/// decoder does: an overrun when the word is not all there, a type-check
/// failure when its number does not fit in a `usize`.
pub open spec fn offset_read(b: Seq<u8>, at: nat) -> Result<nat, DecodeFailure> {
    if at + 32 <= b.len() {
        let w = b.subrange(at as int, at as int + 32);
        match offset_value(w) {
            Some(v) => Ok(v),
            None => Err(DecodeFailure::BadOffset(w)),
        }
    } else {
        Err(DecodeFailure::Overrun)
    }
}

/// The offset or length word at byte `at` of `b`, when there is one and
/// its number fits in a `usize`.
pub open spec fn offset_at(b: Seq<u8>, at: nat) -> Option<nat> {
    match offset_read(b, at) {
        Ok(v) => Some(v),
        Err(_) => None,
    }
}

/// Reads the offset or length word at byte `at` of `b`.
pub fn read_offset(b: &[u8], at: usize) -> (r: Result<usize, AbiError>)
    ensures
        match r {
            Ok(v) => offset_read(b@, at as nat) == Ok::<nat, DecodeFailure>(v as nat),
            Err(e) => offset_read(b@, at as nat) == Err::<nat, DecodeFailure>(failure_of(e)),
        },
{
    if b.len() < 32 || at > b.len() - 32 {
        return Err(AbiError::Overrun);
    }
    let ghost w = b@.subrange(at as int, at as int + 32);
    let mut acc: u64 = 0;
    let mut i: usize = 0;
    assert(w.take(0) =~= Seq::<u8>::empty());
    while i < 32
        invariant
            i <= 32,
            at + 32 <= b.len(),
            w == b@.subrange(at as int, at as int + 32),
            acc as nat == be_value(w.take(i as int)),
        decreases 32 - i,
    {
        let byte = b[at + i];
        let next: u128 = (acc as u128) * 256 + byte as u128;
        assert(w.take(i + 1).drop_last() =~= w.take(i as int));
        assert(w.take(i + 1).last() == byte);
        if next > u64::MAX as u128 {
            proof {
                lemma_be_value_prefix(w, i + 1);
            }
            let word = read_word(b, at);
            return Err(AbiError::OffsetTypeCheck { word });
        }
        acc = next as u64;
        i = i + 1;
    }
    assert(w.take(32) =~= w);
    if acc > usize::MAX as u64 {
        let word = read_word(b, at);
        return Err(AbiError::OffsetTypeCheck { word });
    }
    Ok(acc as usize)
}

/// Reading the bytes of a dynamic `bytes`/`string` value whose head word
/// stands at byte `at` of the enclosing buffer `b`, as alloy's decoder
/// does: the head holds the offset of the tail within `b`, the tail starts
/// with the length, then the bytes.
pub open spec fn dynamic_bytes_read(b: Seq<u8>, at: nat) -> Result<Seq<u8>, DecodeFailure> {
    match offset_read(b, at) {
        Err(f) => Err(f),
        Ok(o) => if o <= b.len() {
            let t = b.skip(o as int);
            match offset_read(t, 0) {
                Err(f) => Err(f),
                Ok(len) => if 32 + len <= t.len() {
                    Ok(t.subrange(32, 32 + len as int))
                } else {
                    Err(DecodeFailure::Overrun)
                },
            }
        } else {
            Err(DecodeFailure::Overrun)
        },
    }
}

/// The bytes of the dynamic value whose head word is at byte `at` of `b`,
/// when they read.
pub open spec fn dynamic_bytes_at(b: Seq<u8>, at: nat) -> Option<Seq<u8>> {
    match dynamic_bytes_read(b, at) {
        Ok(v) => Some(v),
        Err(_) => None,
    }
}

/// Reads the bytes of the dynamic value whose head word is at `at`.
pub fn read_dynamic_bytes(b: &[u8], at: usize) -> (r: Result<Vec<u8>, AbiError>)
    ensures
        match r {
            Ok(v) => dynamic_bytes_read(b@, at as nat) == Ok::<Seq<u8>, DecodeFailure>(v@),
            Err(e) => dynamic_bytes_read(b@, at as nat) == Err::<Seq<u8>, DecodeFailure>(
                failure_of(e),
            ),
        },
{
    let o = read_offset(b, at)?;
    if o > b.len() {
        return Err(AbiError::Overrun);
    }
    let t = slice_subrange(b, o, b.len());
    assert(t@ =~= b@.skip(o as int));
    let len = read_offset(t, 0)?;
    if len > t.len() - 32 {
        return Err(AbiError::Overrun);
    }
    let mut v: Vec<u8> = Vec::new();
    let mut k: usize = 0;
    while k < len
        invariant
            k <= len,
            32 + len <= t.len(),
            v@ == t@.subrange(32, 32 + k),
        decreases len - k,
    {
        v.push(t[32 + k]);
        k = k + 1;
        assert(v@ =~= t@.subrange(32, 32 + k));
    }
    Ok(v)
}

/// The addresses that the return data of a function returning `address[]`
/// holds, or why alloy's decoder refuses it: the head word is the offset
/// of the array; there the length word, then one word per address. The
/// data must hold every word (else an overrun), and the array's words must
/// stay within the decoder's memory limit.
pub open spec fn address_array_return(d: Seq<u8>) -> Result<Seq<Seq<u8>>, DecodeFailure> {
    match offset_read(d, 0) {
        Err(f) => Err(f),
        Ok(o) => if o <= d.len() {
            let c = d.skip(o as int);
            match offset_read(c, 0) {
                Err(f) => Err(f),
                Ok(n) => {
                    let e = c.skip(32);
                    if n > e.len() / 32 {
                        Err(DecodeFailure::Overrun)
                    } else if n * 32 > DECODE_MEMORY_LIMIT {
                        Err(DecodeFailure::MemoryLimit)
                    } else {
                        Ok(Seq::new(n, |k: int| word_address(word_at(e, k as nat))))
                    }
                },
            }
        } else {
            Err(DecodeFailure::Overrun)
        },
    }
}

/// Decodes the return data of a function returning `address[]`.
pub fn decode_address_array_return(data: &[u8]) -> (r: Result<Vec<Address>, AbiError>)
    ensures
        match r {
            Ok(v) => address_array_return(data@) == Ok::<Seq<Seq<u8>>, DecodeFailure>(
                v@.map_values(|a: Address| a@),
            ),
            Err(e) => address_array_return(data@) == Err::<Seq<Seq<u8>>, DecodeFailure>(
                failure_of(e),
            ),
        },
{
    let o = read_offset(data, 0)?;
    if o > data.len() {
        return Err(AbiError::Overrun);
    }
    let c = slice_subrange(data, o, data.len());
    assert(c@ =~= data@.skip(o as int));
    let n = read_offset(c, 0)?;
    let e = slice_subrange(c, 32, c.len());
    assert(e@ =~= c@.skip(32));
    if n > e.len() / 32 {
        return Err(AbiError::Overrun);
    }
    if n > DECODE_MEMORY_LIMIT / 32 {
        assert(n * 32 > DECODE_MEMORY_LIMIT) by (nonlinear_arith)
            requires
                n > DECODE_MEMORY_LIMIT / 32,
                DECODE_MEMORY_LIMIT == 1073741824,
        ;
        return Err(AbiError::MemoryLimitExceeded);
    }
    assert(n * 32 <= DECODE_MEMORY_LIMIT) by (nonlinear_arith)
        requires
            n <= DECODE_MEMORY_LIMIT / 32,
            DECODE_MEMORY_LIMIT == 1073741824,
    ;
    assert(32 * n <= e@.len()) by (nonlinear_arith)
        requires
            n <= e@.len() / 32,
    ;
    let ghost expected = Seq::new(n as nat, |k: int| word_address(word_at(e@, k as nat)));
    let mut out: Vec<Address> = Vec::new();
    let mut k: usize = 0;
    while k < n
        invariant
            k <= n,
            32 * n <= e.len(),
            expected == Seq::new(n as nat, |j: int| word_address(word_at(e@, j as nat))),
            out@.len() == k,
            forall|j: int| 0 <= j < k ==> #[trigger] out@[j]@ == expected[j],
        decreases n - k,
    {
        assert(32 * k + 32 <= 32 * n) by (nonlinear_arith)
            requires
                k < n,
        ;
        let w = read_word(e, 32 * k);
        let a = address_of_word(&w);
        out.push(a);
        k = k + 1;
    }
    assert(out@.map_values(|a: Address| a@) =~= expected);
    Ok(out)
}


/// Whether the word `w` has a byte that is not zero.
pub fn word_is_nonzero(w: &[u8; 32]) -> (b: bool)
    ensures
        b == word_nonzero(w@),
{
    let mut i: usize = 0;
    while i < 32
        invariant
            i <= 32,
            w@.len() == 32,
            forall|k: int| 0 <= k < i ==> w@[k] == 0,
        decreases 32 - i,
    {
        if w[i] != 0 {
            return true;
        }
        i = i + 1;
    }
    false
}

/// The text that `String::from_utf8_lossy` makes of `b`: its UTF-8
/// decoding, with each ill-formed sequence replaced by U+FFFD.
pub uninterp spec fn utf8_lossy(b: Seq<u8>) -> Seq<char>;

/// std's `String::from_utf8_lossy`, which is how strings in return data
/// are read. Well-formed UTF-8 decodes to exactly its characters.
#[verifier::external_body]
pub(crate) fn string_from_utf8_lossy(b: &[u8]) -> (s: String)
    ensures
        s@ == utf8_lossy(b@),
        valid_utf8(b@) ==> s@ == decode_utf8(b@),
{
    String::from_utf8_lossy(b).into_owned()
}


// ---------------------------------------------------------------------
// What the encoder writes, the decoder reads back
// ---------------------------------------------------------------------

/// The `k` big-endian bytes of `n` modulo 256^k.
pub open spec fn be_bytes(n: nat, k: nat) -> Seq<u8>
    decreases k,
{
    if k == 0 {
        Seq::empty()
    } else {
        be_bytes(n / 256, (k - 1) as nat).push((n % 256) as u8)
    }
}

proof fn lemma_be_bytes(n: nat, k: nat)
    requires
        n < pow256(k),
    ensures
        be_bytes(n, k).len() == k,
        be_value(be_bytes(n, k)) == n,
    decreases k,
{
    if k > 0 {
        let p = pow256((k - 1) as nat);
        assert(n / 256 < p) by (nonlinear_arith)
            requires
                n < 256 * p,
        ;
        lemma_be_bytes(n / 256, (k - 1) as nat);
        let s = be_bytes(n, k);
        assert(s.drop_last() =~= be_bytes(n / 256, (k - 1) as nat));
        assert(n == (n / 256) * 256 + n % 256) by (nonlinear_arith);
    }
}

proof fn lemma_pow256_mono(a: nat, b: nat)
    requires
        a <= b,
    ensures
        pow256(a) <= pow256(b),
    decreases b,
{
    if a < b {
        lemma_pow256_mono(a, (b - 1) as nat);
        lemma_pow256_positive((b - 1) as nat);
    }
}

/// Every number below 2^256 has a 32-byte word.
pub(crate) proof fn lemma_word_of_value(n: nat)
    requires
        n < u256_modulus(),
    ensures
        word_of(n).len() == 32,
        be_value(word_of(n)) == n,
{
    reveal_with_fuel(pow256, 33);
    assert(pow256(32) == u256_modulus());
    lemma_be_bytes(n, 32);
    assert(is_word_of(be_bytes(n, 32), n));
}

/// Every number that fits in a `usize` has a 32-byte word.
pub(crate) proof fn lemma_word_of_usize(n: nat)
    requires
        n <= usize::MAX,
    ensures
        word_of(n).len() == 32,
        be_value(word_of(n)) == n,
        offset_value(word_of(n)) == Some(n),
{
    reveal_with_fuel(pow256, 9);
    assert(pow256(8) == 0x1_0000_0000_0000_0000);
    lemma_pow256_mono(8, 32);
    lemma_be_bytes(n, 32);
    assert(is_word_of(be_bytes(n, 32), n));
}

/// A dynamic tail placed after `pre`, with a head word at `at` holding the
/// length of `pre`, is read back as the bytes it was made of.
pub(crate) proof fn lemma_tail_reads_back(d: Seq<u8>, at: nat, pre: Seq<u8>, b: Seq<u8>, rest: Seq<u8>)
    requires
        d == pre + dynamic_tail(b) + rest,
        at + 32 <= pre.len(),
        pre.subrange(at as int, at as int + 32) == word_of(pre.len()),
        pre.len() <= usize::MAX,
        b.len() <= usize::MAX,
    ensures
        dynamic_bytes_at(d, at) == Some(b),
{
    lemma_word_of_usize(pre.len());
    lemma_word_of_usize(b.len());
    assert(d.subrange(at as int, at as int + 32) =~= pre.subrange(at as int, at as int + 32));
    assert(offset_at(d, at) == Some(pre.len()));
    let t = d.skip(pre.len() as int);
    assert(t =~= word_of(b.len()) + pad32(b) + rest);
    assert(t.subrange(0, 32) =~= word_of(b.len()));
    assert(offset_at(t, 0) == Some(b.len()));
    assert(padded_len(b.len()) >= b.len());
    assert(t.subrange(32, 32 + b.len() as int) =~= b);
}

/// The arguments of `(uint256, uint256, uint256, string, string)` as this
/// library encodes them read back as what was encoded: the three words,
/// and the two strings through their offsets.
pub proof fn law_uint3_string2_args_read_back(
    a: Seq<u8>,
    b: Seq<u8>,
    c: Seq<u8>,
    s: Seq<u8>,
    t: Seq<u8>,
)
    requires
        a.len() == 32,
        b.len() == 32,
        c.len() == 32,
        s.len() + t.len() + 512 <= usize::MAX,
    ensures
        word_at(uint3_string2_args(a, b, c, s, t), 0) == a,
        word_at(uint3_string2_args(a, b, c, s, t), 1) == b,
        word_at(uint3_string2_args(a, b, c, s, t), 2) == c,
        dynamic_bytes_at(uint3_string2_args(a, b, c, s, t), 96) == Some(s),
        dynamic_bytes_at(uint3_string2_args(a, b, c, s, t), 128) == Some(t),
{
    let second: nat = 160 + 32 + padded_len(s.len());
    lemma_word_of_usize(160);
    lemma_word_of_usize(second);
    lemma_word_of_usize(s.len());
    let d = uint3_string2_args(a, b, c, s, t);
    let head = a + b + c + word_of(160) + word_of(second);
    assert(head.len() == 160);
    assert(pad32(s).len() == padded_len(s.len()));
    assert(d =~= head + dynamic_tail(s) + dynamic_tail(t));
    assert(word_at(d, 0) =~= a);
    assert(word_at(d, 1) =~= b);
    assert(word_at(d, 2) =~= c);
    assert(head.subrange(96, 128) =~= word_of(160));
    lemma_tail_reads_back(d, 96, head, s, dynamic_tail(t));
    let pre2 = head + dynamic_tail(s);
    assert(pre2.len() == second);
    assert(d =~= pre2 + dynamic_tail(t) + Seq::<u8>::empty());
    assert(pre2.subrange(128, 160) =~= word_of(second));
    lemma_tail_reads_back(d, 128, pre2, t, Seq::<u8>::empty());
}

/// A byte sequence of zeros denotes zero.
proof fn lemma_be_value_zeros(s: Seq<u8>)
    requires
        forall|i: int| 0 <= i < s.len() ==> s[i] == 0,
    ensures
        be_value(s) == 0,
    decreases s.len(),
{
    if s.len() > 0 {
        lemma_be_value_zeros(s.drop_last());
    }
}

/// The word of a `bool` (1 for true, 0 for false) reads back as it.
pub proof fn law_bool_word_reads_back(b: bool)
    ensures
        word_of(if b { 1 } else { 0 }).len() == 32,
        word_nonzero(word_of(if b { 1 } else { 0 })) == b,
{
    if b {
        lemma_word_of_value(1);
        let w = word_of(1);
        if !word_nonzero(w) {
            lemma_be_value_zeros(w);
        }
    } else {
        let z = Seq::new(32, |i: int| 0u8);
        lemma_be_value_zeros(z);
        lemma_word_of(z, 0);
    }
}

/// A `uint256` return value is the number its word holds: decoding the
/// word of `n` gives `n` back.
pub proof fn law_uint256_word_reads_back(n: nat, rest: Seq<u8>)
    requires
        n < u256_modulus(),
    ensures
        uint256_return(word_of(n) + rest) matches Some(w) && be_value(w) == n,
{
    lemma_word_of_value(n);
    assert(word_at(word_of(n) + rest, 0) =~= word_of(n));
}

} // verus!
