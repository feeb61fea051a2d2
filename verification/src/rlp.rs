//! Byte strings behind a recursive-length-prefix header.
//!
//! A single byte below `0x80` stands for itself. A string of up to 55 bytes
//! follows one header byte, `0x80` plus its length. A longer string follows
//! the header byte `0xb7` plus the number of length bytes, and the length
//! itself, big-endian, with no leading zero. Lists (header bytes from `0xc0`)
//! are not strings. Only the shortest form of a string is accepted when
//! reading, and what follows the string is left alone.

use vstd::prelude::*;
use vstd::slice::slice_subrange;

verus! {

/// The first header byte of a string with its own length byte.
pub const SHORT_STRING: u8 = 0x80;

/// The header byte before the first length of a long string.
pub const LONG_STRING: u8 = 0xb7;

/// The first header byte of a list.
pub const LIST: u8 = 0xc0;

/// The length from which a string has the long form.
pub const LONG_FROM: usize = 56;

/// The bytes of `n`, most significant first, with no leading zero.
pub open spec fn be_bytes(n: nat) -> Seq<u8>
    decreases n,
{
    if n == 0 {
        Seq::empty()
    } else {
        be_bytes(n / 256).push((n % 256) as u8)
    }
}

/// The number that the bytes of `s` spell, most significant first.
pub open spec fn be_value(s: Seq<u8>) -> nat
    decreases s.len(),
{
    if s.len() == 0 {
        0
    } else {
        256 * be_value(s.drop_last()) + s.last() as nat
    }
}

/// 256 to the power `e`.
pub open spec fn pow256(e: nat) -> nat
    decreases e,
{
    if e == 0 {
        1
    } else {
        256 * pow256((e - 1) as nat)
    }
}

/// The framed form of the string `p`.
pub open spec fn string_bytes(p: Seq<u8>) -> Seq<u8> {
    if p.len() == 1 && p[0] < SHORT_STRING {
        p
    } else if p.len() < LONG_FROM {
        seq![(SHORT_STRING + p.len()) as u8] + p
    } else {
        seq![(LONG_STRING + be_bytes(p.len()).len()) as u8] + be_bytes(p.len()) + p
    }
}

/// The string that `b` starts with. `None` where `b` starts with a list, ends
/// before the string does, or holds the string in a longer form than needed.
pub open spec fn framed_payload(b: Seq<u8>) -> Option<Seq<u8>> {
    if b.len() == 0 {
        None
    } else if b[0] < SHORT_STRING {
        Some(b.subrange(0, 1))
    } else if b[0] <= LONG_STRING {
        let len = b[0] - SHORT_STRING;
        if b.len() < 1 + len {
            None
        } else if len == 1 && b[1] < SHORT_STRING {
            None
        } else {
            Some(b.subrange(1, 1 + len))
        }
    } else if b[0] < LIST {
        let width = b[0] - LONG_STRING;
        if b.len() < 1 + width {
            None
        } else if b[1] == 0 {
            None
        } else {
            let len = be_value(b.subrange(1, 1 + width));
            if len < LONG_FROM || b.len() < 1 + width + len {
                None
            } else {
                Some(b.subrange(1 + width, 1 + width + len))
            }
        }
    } else {
        None
    }
}

/// The bytes of a number spell that number.
pub proof fn lemma_be_round_trip(n: nat)
    ensures
        be_value(be_bytes(n)) == n,
    decreases n,
{
    if n > 0 {
        lemma_be_round_trip(n / 256);
        assert(be_bytes(n).drop_last() =~= be_bytes(n / 256));
    }
}

/// The bytes of a positive number begin with a byte that is not zero.
pub proof fn lemma_be_leading(n: nat)
    requires
        n > 0,
    ensures
        be_bytes(n).len() >= 1,
        be_bytes(n)[0] != 0,
    decreases n,
{
    if n >= 256 {
        lemma_be_leading(n / 256);
    } else {
        assert(be_bytes(n / 256) =~= Seq::<u8>::empty());
    }
}

/// A number below 256 to the power `k` has at most `k` bytes.
pub proof fn lemma_be_len(n: nat, k: nat)
    requires
        n < pow256(k),
    ensures
        be_bytes(n).len() <= k,
    decreases n,
{
    if n > 0 {
        assert(k > 0);
        assert(n / 256 < pow256((k - 1) as nat));
        lemma_be_len(n / 256, (k - 1) as nat);
    }
}

/// No number of 64 bits has more than eight bytes.
pub proof fn lemma_be_len_u64(n: nat)
    requires
        n <= u64::MAX,
    ensures
        be_bytes(n).len() <= 8,
{
    reveal_with_fuel(pow256, 9);
    lemma_be_len(n, 8);
}

/// The number that a string of bytes spells is no less than the number that
/// any of its prefixes spells.
pub proof fn lemma_be_value_extends(s: Seq<u8>, i: int)
    requires
        0 <= i <= s.len(),
    ensures
        be_value(s.subrange(0, i)) <= be_value(s),
    decreases s.len() - i,
{
    if i == s.len() {
        assert(s.subrange(0, i) =~= s);
    } else {
        assert(s.drop_last().subrange(0, i) =~= s.subrange(0, i));
        lemma_be_value_extends(s.drop_last(), i);
    }
}

/// Reading a framed string gives the string back, whatever follows it.
pub proof fn lemma_string_round_trip(p: Seq<u8>, rest: Seq<u8>)
    requires
        p.len() <= u64::MAX,
    ensures
        framed_payload(string_bytes(p) + rest) == Some(p),
{
    let b = string_bytes(p) + rest;
    if p.len() == 1 && p[0] < SHORT_STRING {
        assert(b.subrange(0, 1) =~= p);
    } else if p.len() < LONG_FROM {
        assert(b.subrange(1, 1 + p.len() as int) =~= p);
    } else {
        let digits = be_bytes(p.len());
        lemma_be_len_u64(p.len());
        lemma_be_leading(p.len());
        lemma_be_round_trip(p.len());
        let width = digits.len() as int;
        assert(b[0] == LONG_STRING + width);
        assert(b.subrange(1, 1 + width) =~= digits);
        assert(b[1] == digits[0]);
        assert(b.subrange(1 + width, 1 + width + p.len() as int) =~= p);
    }
}

/// Appends `bytes` to `out`.
pub fn append_bytes(out: &mut Vec<u8>, bytes: &[u8])
    ensures
        final(out)@ == old(out)@ + bytes@,
{
    let ghost start = out@;
    let mut i: usize = 0;
    while i < bytes.len()
        invariant
            i <= bytes@.len(),
            out@ == start + bytes@.subrange(0, i as int),
        decreases bytes@.len() - i,
    {
        out.push(bytes[i]);
        i = i + 1;
    }
    proof {
        assert(bytes@.subrange(0, i as int) =~= bytes@);
    }
}

/// Appends the bytes of `n`, most significant first, with no leading zero.
pub fn append_be(n: usize, out: &mut Vec<u8>)
    ensures
        final(out)@ == old(out)@ + be_bytes(n as nat),
    decreases n,
{
    if n > 0 {
        append_be(n / 256, out);
        out.push((n % 256) as u8);
    }
}

/// Appends the framed form of `payload` to `out`.
pub fn encode_string(payload: &[u8], out: &mut Vec<u8>)
    ensures
        final(out)@ == old(out)@ + string_bytes(payload@),
{
    let len = payload.len();
    if len == 1 && payload[0] < SHORT_STRING {
    } else if len < LONG_FROM {
        out.push(SHORT_STRING + len as u8);
    } else {
        let mut digits: Vec<u8> = Vec::new();
        append_be(len, &mut digits);
        proof {
            lemma_be_len_u64(len as nat);
        }
        out.push(LONG_STRING + digits.len() as u8);
        append_bytes(out, digits.as_slice());
    }
    append_bytes(out, payload);
}

/// Reads the string that `bytes` starts with. `None` where `bytes` does not
/// start with a string in its shortest form.
pub fn decode_string(bytes: &[u8]) -> (r: Option<&[u8]>)
    ensures
        framed_payload(bytes@) == match r {
            Some(p) => Some(p@),
            None => None,
        },
{
    let total = bytes.len();
    if total == 0 {
        return None;
    }
    let head = bytes[0];
    if head < SHORT_STRING {
        return Some(slice_subrange(bytes, 0, 1));
    }
    if head <= LONG_STRING {
        let len = (head - SHORT_STRING) as usize;
        if total - 1 < len {
            return None;
        }
        if len == 1 && bytes[1] < SHORT_STRING {
            return None;
        }
        return Some(slice_subrange(bytes, 1, 1 + len));
    }
    if head >= LIST {
        return None;
    }
    let width = (head - LONG_STRING) as usize;
    if total - 1 < width {
        return None;
    }
    if bytes[1] == 0 {
        return None;
    }
    let ghost digits = bytes@.subrange(1, 1 + width);
    let mut len: u128 = 0;
    let mut i: usize = 0;
    while i < width
        invariant
            i <= width,
            1 + width <= total,
            total == bytes@.len(),
            LONG_STRING < bytes@[0] < LIST,
            width == bytes@[0] - LONG_STRING,
            bytes@[1] != 0,
            digits == bytes@.subrange(1, 1 + width),
            len == be_value(digits.subrange(0, i as int)),
            len <= total,
        decreases width - i,
    {
        proof {
            let next = digits.subrange(0, i + 1);
            assert(next.drop_last() =~= digits.subrange(0, i as int));
            assert(next.last() == bytes@[1 + i]);
        }
        len = len * 256 + bytes[1 + i] as u128;
        i = i + 1;
        if len > total as u128 {
            proof {
                lemma_be_value_extends(digits, i as int);
            }
            return None;
        }
    }
    proof {
        assert(digits.subrange(0, i as int) =~= digits);
    }
    let len = len as usize;
    if len < LONG_FROM || total - 1 - width < len {
        return None;
    }
    Some(slice_subrange(bytes, 1 + width, 1 + width + len))
}

} // verus!
