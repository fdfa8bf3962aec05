//! The protocol's primitive encodings: big-endian integers, variable-length integers,
//! strings, booleans and optional values.

use vstd::prelude::*;
use vstd::utf8::{encode_utf8, decode_utf8, valid_utf8};

verus! {

pub open spec fn be16(v: int) -> Seq<u8> {
    seq![(v / 0x100 % 0x100) as u8, (v % 0x100) as u8]
}

pub open spec fn be32(v: int) -> Seq<u8> {
    seq![
        (v / 0x1000000 % 0x100) as u8,
        (v / 0x10000 % 0x100) as u8,
        (v / 0x100 % 0x100) as u8,
        (v % 0x100) as u8,
    ]
}

pub open spec fn be64(v: int) -> Seq<u8> {
    be32(v / 0x100000000) + be32(v % 0x100000000)
}

pub fn push_be16(out: &mut Vec<u8>, v: u16)
    ensures
        final(out)@ == old(out)@ + be16(v as int),
{
    out.push((v / 0x100) as u8);
    out.push((v % 0x100) as u8);
    assert(final(out)@ =~= old(out)@ + be16(v as int));
}

pub fn push_be32(out: &mut Vec<u8>, v: u32)
    ensures
        final(out)@ == old(out)@ + be32(v as int),
{
    out.push((v / 0x1000000) as u8);
    out.push((v / 0x10000 % 0x100) as u8);
    out.push((v / 0x100 % 0x100) as u8);
    out.push((v % 0x100) as u8);
    assert(final(out)@ =~= old(out)@ + be32(v as int));
}

pub fn push_be64(out: &mut Vec<u8>, v: u64)
    ensures
        final(out)@ == old(out)@ + be64(v as int),
{
    push_be32(out, (v / 0x100000000) as u32);
    push_be32(out, (v % 0x100000000) as u32);
    assert(final(out)@ =~= old(out)@ + be64(v as int));
}

pub open spec fn be128(v: int) -> Seq<u8> {
    be64(v / 0x1_0000_0000_0000_0000) + be64(v % 0x1_0000_0000_0000_0000)
}

pub fn push_be128(out: &mut Vec<u8>, v: u128)
    ensures
        final(out)@ == old(out)@ + be128(v as int),
{
    push_be64(out, (v / 0x1_0000_0000_0000_0000) as u64);
    push_be64(out, (v % 0x1_0000_0000_0000_0000) as u64);
    assert(final(out)@ =~= old(out)@ + be128(v as int));
}

/// A variable-length integer: seven bits per byte, least significant group first, the
/// top bit set on every byte but the last.
pub open spec fn varint(v: nat) -> Seq<u8>
    decreases v,
{
    if v < 0x80 {
        seq![v as u8]
    } else {
        seq![(v % 0x80 + 0x80) as u8] + varint(v / 0x80)
    }
}

/// Reads a variable-length integer from the front of `s`, using at most `max` bytes:
/// its value and the number of bytes it took, or nothing where `s` ends first or the
/// integer runs longer than `max` bytes.
pub open spec fn varint_decode(s: Seq<u8>, max: nat) -> Option<(nat, nat)>
    decreases max,
{
    if max == 0 || s.len() == 0 {
        Option::None
    } else if s[0] < 0x80 {
        Option::Some((s[0] as nat, 1))
    } else {
        match varint_decode(s.drop_first(), (max - 1) as nat) {
            Option::Some((v, n)) => Option::Some(((s[0] - 0x80) as nat + 0x80 * v, n + 1)),
            Option::None => Option::None,
        }
    }
}

/// A `u32` as the protocol reads it: at most five bytes, and a value that fits.
pub open spec fn varint_u32_decode(s: Seq<u8>) -> Option<(u32, nat)> {
    match varint_decode(s, 5) {
        Option::Some((v, n)) => if v <= u32::MAX {
            Option::Some((v as u32, n))
        } else {
            Option::None
        },
        Option::None => Option::None,
    }
}

/// `0x80` to the `k`.
pub open spec fn pow128(k: nat) -> nat
    decreases k,
{
    if k == 0 {
        1
    } else {
        0x80 * pow128((k - 1) as nat)
    }
}

/// A value below `0x80` to the `k` takes at most `k` bytes.
pub proof fn lemma_varint_len(v: nat, k: nat)
    requires
        k > 0,
        v < pow128(k),
    ensures
        1 <= varint(v).len() <= k,
    decreases v,
{
    if v >= 0x80 {
        let k1 = (k - 1) as nat;
        if k1 == 0 {
            assert(pow128(1) == 0x80 * pow128(0));
            assert(false);
        }
        assert(v / 0x80 < pow128(k1));
        lemma_varint_len(v / 0x80, k1);
    }
}

/// `0x80` to the fifth is `2` to the 35th.
proof fn lemma_pow128_5()
    ensures
        pow128(5) == 0x8_0000_0000,
{
    reveal_with_fuel(pow128, 6);
}

/// Reading back what was written gives the value and its length, whatever follows.
pub proof fn lemma_varint_roundtrip(v: nat, max: nat, rest: Seq<u8>)
    requires
        varint(v).len() <= max,
    ensures
        varint_decode(varint(v) + rest, max) == Option::Some((v, varint(v).len())),
    decreases v,
{
    let s = varint(v) + rest;
    if v < 0x80 {
        assert(s[0] == v as u8);
    } else {
        lemma_varint_roundtrip(v / 0x80, (max - 1) as nat, rest);
        assert(s.drop_first() =~= varint(v / 0x80) + rest);
        assert(s[0] == (v % 0x80 + 0x80) as u8);
    }
}

/// Every `u32` reads back from its encoding, whatever follows it.
pub proof fn lemma_varint_u32_roundtrip(v: u32, rest: Seq<u8>)
    ensures
        varint(v as nat).len() <= 5,
        varint_u32_decode(varint(v as nat) + rest) == Option::Some((v, varint(v as nat).len())),
{
    lemma_pow128_5();
    lemma_varint_len(v as nat, 5);
    lemma_varint_roundtrip(v as nat, 5, rest);
}

/// The number of bytes `varint(v)` takes.
pub fn varint_len(v: u32) -> (n: usize)
    ensures
        n == varint(v as nat).len(),
        1 <= n <= 5,
{
    proof {
        lemma_varint_u32_roundtrip(v, Seq::empty());
    }
    let mut n: usize = 1;
    let mut rest = v;
    while rest >= 0x80
        invariant
            n + varint(rest as nat).len() - 1 == varint(v as nat).len(),
            1 <= n <= 5,
            varint(v as nat).len() <= 5,
            varint(rest as nat).len() >= 1,
        decreases rest,
    {
        rest = rest / 0x80;
        n = n + 1;
        proof {
            lemma_pow128_5();
            lemma_varint_len(rest as nat, 5);
        }
    }
    n
}

/// Appends `v` as a variable-length integer.
pub fn push_varint(out: &mut Vec<u8>, v: u32)
    ensures
        final(out)@ == old(out)@ + varint(v as nat),
{
    let ghost start = out@;
    let mut rest = v;
    while rest >= 0x80
        invariant
            start + varint(v as nat) == out@ + varint(rest as nat),
        decreases rest,
    {
        let ghost before = out@;
        out.push((rest % 0x80 + 0x80) as u8);
        rest = rest / 0x80;
        assert(out@ + varint(rest as nat) =~= before + (seq![(out@.last())] + varint(rest as nat)));
    }
    out.push(rest as u8);
    assert(final(out)@ =~= old(out)@ + varint(v as nat));
}

/// What `varint_decode` reads is below `0x80` to the `max`.
proof fn lemma_varint_decode_bound(s: Seq<u8>, max: nat)
    ensures
        varint_decode(s, max) matches Option::Some((v, n)) ==> v < pow128(max) && 1 <= n <= max,
    decreases max,
{
    if max > 0 && s.len() > 0 {
        lemma_pow128_monotone(0, (max - 1) as nat);
        assert(pow128(max) == 0x80 * pow128((max - 1) as nat));
        if s[0] >= 0x80 {
            lemma_varint_decode_bound(s.drop_first(), (max - 1) as nat);
        }
    }
}

fn read_varint_rec(buf: &[u8], pos: usize, max: usize) -> (r: Option<(u64, usize)>)
    requires
        pos <= buf@.len(),
        max <= 5,
    ensures
        match varint_decode(buf@.skip(pos as int), max as nat) {
            Option::Some((v, n)) => r == Option::Some((v as u64, n as usize)),
            Option::None => r is None,
        },
    decreases max,
{
    proof {
        lemma_varint_decode_bound(buf@.skip(pos as int), max as nat);
        lemma_pow128_5();
        lemma_pow128_monotone(max as nat, 5);
    }
    if max == 0 || pos >= buf.len() {
        return None;
    }
    let b = buf[pos];
    if b < 0x80 {
        return Some((b as u64, 1));
    }
    assert(buf@.skip(pos as int).drop_first() =~= buf@.skip(pos + 1));
    match read_varint_rec(buf, pos + 1, max - 1) {
        Some((v, n)) => {
            proof {
                lemma_varint_decode_bound(buf@.skip(pos + 1), (max - 1) as nat);
                lemma_pow128_monotone((max - 1) as nat, 4);
                reveal_with_fuel(pow128, 5);
            }
            Some(((b - 0x80) as u64 + 0x80 * v, n + 1))
        },
        None => None,
    }
}

/// `0x80` to a power grows with the power.
proof fn lemma_pow128_monotone(a: nat, b: nat)
    requires
        a <= b,
    ensures
        pow128(a) <= pow128(b),
        pow128(a) >= 1,
    decreases b,
{
    if a < b {
        lemma_pow128_monotone(a, (b - 1) as nat);
    } else if a > 0 {
        lemma_pow128_monotone((a - 1) as nat, (a - 1) as nat);
    }
}

/// Reads a `u32` variable-length integer at `pos`: the value and the number of bytes it
/// took, or nothing where the bytes end first, run longer than five bytes or hold a
/// value above `u32::MAX`.
pub fn read_varint_u32(buf: &[u8], pos: usize) -> (r: Option<(u32, usize)>)
    requires
        pos <= buf@.len(),
    ensures
        match varint_u32_decode(buf@.skip(pos as int)) {
            Option::Some((v, n)) => r == Option::Some((v, n as usize)),
            Option::None => r is None,
        },
{
    proof {
        lemma_varint_decode_bound(buf@.skip(pos as int), 5);
        lemma_pow128_5();
    }
    match read_varint_rec(buf, pos, 5) {
        Some((v, n)) => {
            if v <= 0xFFFF_FFFF {
                Some((v as u32, n))
            } else {
                None
            }
        },
        None => None,
    }
}

/// A string: the length of its UTF-8 form as a variable-length integer, then that form.
pub open spec fn proto_string(s: Seq<char>) -> Seq<u8> {
    varint(encode_utf8(s).len()) + encode_utf8(s)
}

/// Whether the UTF-8 form of `s` has a length that a `u32` holds.
pub open spec fn proto_string_fits(s: Seq<char>) -> bool {
    encode_utf8(s).len() <= u32::MAX
}

/// The number of bytes `proto_string(s)` takes.
pub fn string_len(s: &str) -> (n: usize)
    requires
        proto_string_fits(s@),
        encode_utf8(s@).len() + 5 <= usize::MAX,
    ensures
        n == proto_string(s@).len(),
        n <= encode_utf8(s@).len() + 5,
{
    let len = s.len();
    varint_len(len as u32) + len
}

/// Appends `s` as a protocol string.
pub fn push_string(out: &mut Vec<u8>, s: &str)
    requires
        proto_string_fits(s@),
    ensures
        final(out)@ == old(out)@ + proto_string(s@),
{
    let bytes = s.as_bytes();
    push_varint(out, bytes.len() as u32);
    out.extend_from_slice(bytes);
    assert(final(out)@ =~= old(out)@ + proto_string(s@));
}

/// A boolean: one byte, 1 or 0.
pub open spec fn proto_bool(b: bool) -> Seq<u8> {
    seq![if b { 1u8 } else { 0u8 }]
}

/// An optional string: a boolean telling whether it is there, then the string.
pub open spec fn proto_opt_string(s: Option<Seq<char>>) -> Seq<u8> {
    match s {
        Option::Some(s) => proto_bool(true) + proto_string(s),
        Option::None => proto_bool(false),
    }
}

/// Appends an optional string.
pub fn push_opt_string(out: &mut Vec<u8>, s: &Option<String>)
    requires
        s matches Option::Some(x) ==> proto_string_fits(x@),
    ensures
        final(out)@ == old(out)@ + proto_opt_string(
            match *s {
                Option::Some(x) => Option::Some(x@),
                Option::None => Option::None,
            },
        ),
{
    match s {
        Some(x) => {
            out.push(1u8);
            push_string(out, x.as_str());
            assert(final(out)@ =~= old(out)@ + (proto_bool(true) + proto_string(x@)));
        },
        None => {
            out.push(0u8);
        },
    }
}

/// Why a string could not be read.
#[derive(Clone, Copy, PartialEq, Eq, Structural, Debug)]
pub enum StringDecodeError {
    /// The length in front of it is missing or not a `u32` variable-length integer.
    BadLength,
    /// Fewer bytes follow than the length announces.
    Incomplete,
    /// The bytes are not UTF-8.
    InvalidUtf8,
}

/// The message describing a string error.
pub open spec fn string_error_message(e: StringDecodeError) -> Seq<char> {
    match e {
        StringDecodeError::BadLength => "bad length"@,
        StringDecodeError::Incomplete => "incomplete"@,
        StringDecodeError::InvalidUtf8 => "invalid utf-8"@,
    }
}

impl StringDecodeError {
    /// The message describing the error.
    pub fn to_string(&self) -> (r: String)
        ensures
            r@ == string_error_message(*self),
    {
        match self {
            StringDecodeError::BadLength => "bad length".to_owned(),
            StringDecodeError::Incomplete => "incomplete".to_owned(),
            StringDecodeError::InvalidUtf8 => "invalid utf-8".to_owned(),
        }
    }
}

/// Reading a string from the front of `s`: its characters and the number of bytes it
/// took, or why it could not be read.
pub open spec fn string_decode(s: Seq<u8>) -> Result<(Seq<char>, nat), StringDecodeError> {
    match varint_u32_decode(s) {
        Option::None => Result::Err(StringDecodeError::BadLength),
        Option::Some((n, k)) => if k + n > s.len() {
            Result::Err(StringDecodeError::Incomplete)
        } else if !valid_utf8(s.subrange(k as int, k + n)) {
            Result::Err(StringDecodeError::InvalidUtf8)
        } else {
            Result::Ok((decode_utf8(s.subrange(k as int, k + n)), (k + n) as nat))
        },
    }
}

/// Calls `std::str::from_utf8` and copies the result. std documents that it succeeds
/// exactly on valid UTF-8, and that the string it returns has the given bytes as its
/// UTF-8 form.
#[verifier::external_body]
fn utf8_to_string(bytes: &[u8]) -> (r: Option<String>)
    ensures
        r is Some <==> valid_utf8(bytes@),
        r matches Option::Some(s) ==> encode_utf8(s@) == bytes@,
{
    match std::str::from_utf8(bytes) {
        Ok(s) => Some(s.to_owned()),
        Err(_) => None,
    }
}

/// Reads a protocol string at `pos`: the string and the number of bytes it took.
pub fn read_string(buf: &[u8], pos: usize) -> (r: Result<(String, usize), StringDecodeError>)
    requires
        pos <= buf@.len(),
    ensures
        match string_decode(buf@.skip(pos as int)) {
            Result::Ok((chars, n)) => r matches Result::Ok((st, m)) && st@ == chars && m == n,
            Result::Err(e) => r == Result::<(String, usize), StringDecodeError>::Err(e),
        },
        r matches Result::Ok((_, m)) ==> m <= buf@.len() - pos,
{
    proof {
        lemma_varint_decode_bound(buf@.skip(pos as int), 5);
    }
    let (n, k) = match read_varint_u32(buf, pos) {
        Some(x) => x,
        None => {
            return Err(StringDecodeError::BadLength);
        },
    };
    let n = n as usize;
    if n > buf.len() - pos || k > buf.len() - pos - n {
        return Err(StringDecodeError::Incomplete);
    }
    let bytes = &buf[pos + k..pos + k + n];
    assert(bytes@ =~= buf@.skip(pos as int).subrange(k as int, k + n));
    match utf8_to_string(bytes) {
        Some(s) => {
            proof {
                vstd::utf8::encode_utf8_decode_utf8(s@);
            }
            Ok((s, k + n))
        },
        None => Err(StringDecodeError::InvalidUtf8),
    }
}

/// A string reads back from its encoding, whatever follows it.
pub proof fn lemma_string_roundtrip(s: Seq<char>, rest: Seq<u8>)
    requires
        proto_string_fits(s),
    ensures
        string_decode(proto_string(s) + rest) == Result::<(Seq<char>, nat), StringDecodeError>::Ok(
            (s, proto_string(s).len()),
        ),
{
    let bytes = encode_utf8(s);
    let n = bytes.len();
    lemma_varint_u32_roundtrip(n as u32, bytes + rest);
    let whole = proto_string(s) + rest;
    assert(whole =~= varint(n) + (bytes + rest));
    let k = varint(n).len();
    assert(whole.subrange(k as int, (k + n) as int) =~= bytes);
    vstd::utf8::encode_utf8_valid_utf8(s);
    vstd::utf8::encode_utf8_decode_utf8(s);
}


/// An optional string starts with one byte telling whether it is there, 1 or 0; a
/// present string follows that byte in full, an absent one is that byte alone.
pub proof fn lemma_opt_string_layout(s: Option<Seq<char>>)
    ensures
        match s {
            Option::Some(x) => proto_opt_string(s) == seq![1u8] + proto_string(x),
            Option::None => proto_opt_string(s) == seq![0u8],
        },
        proto_opt_string(s)[0] == (if s is Some { 1u8 } else { 0u8 }),
{
    if let Option::Some(x) = s {
        assert((seq![1u8] + proto_string(x))[0] == 1u8);
    }
}


/// The big-endian bytes of a number read back as the number, most significant byte
/// first.
pub proof fn lemma_big_endian_value(v16: u16, v32: u32)
    ensures
        be16(v16 as int).len() == 2,
        be16(v16 as int)[0] * 0x100 + be16(v16 as int)[1] == v16,
        be32(v32 as int).len() == 4,
        be32(v32 as int)[0] * 0x1000000 + be32(v32 as int)[1] * 0x10000 + be32(v32 as int)[2]
            * 0x100 + be32(v32 as int)[3] == v32,
{
    let a = v32 as int;
    assert(a / 0x1000000 % 0x100 == a / 0x1000000) by (nonlinear_arith)
        requires
            0 <= a < 0x100000000,
    ;
    assert((a / 0x1000000) * 0x1000000 + (a / 0x10000 % 0x100) * 0x10000 + (a / 0x100 % 0x100)
        * 0x100 + a % 0x100 == a) by (nonlinear_arith)
        requires
            0 <= a < 0x100000000,
    ;
    let c = v16 as int;
    assert(c / 0x100 % 0x100 == c / 0x100) by (nonlinear_arith)
        requires
            0 <= c < 0x10000,
    ;
    assert((c / 0x100) * 0x100 + c % 0x100 == c) by (nonlinear_arith)
        requires
            0 <= c < 0x10000,
    ;
}

} // verus!
