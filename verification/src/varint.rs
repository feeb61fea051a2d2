//! Unsigned variable-length integers.
//!
//! A value is written seven bits at a time, least significant group first.
//! Every byte but the last has its top bit set. Only the shortest encoding of
//! a value is accepted when reading.

use vstd::prelude::*;

verus! {

/// The length of the longest encoding of a 64-bit value.
pub const MAX_VARINT_LEN: usize = 10;

/// The encoding of `n`.
pub open spec fn varint_bytes(n: nat) -> Seq<u8>
    decreases n,
{
    if n < 128 {
        seq![n as u8]
    } else {
        seq![(n % 128 + 128) as u8] + varint_bytes(n / 128)
    }
}

/// The value that `s` starts with and the number of bytes that hold it.
/// `None` where `s` ends before the value does, and where the value is
/// followed by a needless zero group.
pub open spec fn varint_value(s: Seq<u8>) -> Option<(nat, nat)>
    decreases s.len(),
{
    if s.len() == 0 {
        None
    } else if s[0] < 128 {
        Some((s[0] as nat, 1nat))
    } else {
        match varint_value(s.skip(1)) {
            Some((v, n)) => if v == 0 {
                None
            } else {
                Some((((s[0] - 128) + 128 * v) as nat, n + 1))
            },
            None => None,
        }
    }
}

/// As `varint_value`, for the values that fit in 64 bits.
pub open spec fn varint_u64(s: Seq<u8>) -> Option<(u64, nat)> {
    match varint_value(s) {
        Some((v, n)) => if v <= u64::MAX {
            Some((v as u64, n))
        } else {
            None
        },
        None => None,
    }
}

/// 128 to the power `e`.
pub open spec fn pow128(e: nat) -> nat
    decreases e,
{
    if e == 0 {
        1
    } else {
        128 * pow128((e - 1) as nat)
    }
}

/// An encoding has between one and ten bytes for a 64-bit value, and its
/// last byte alone has the top bit clear.
pub proof fn lemma_varint_len(n: nat)
    ensures
        varint_bytes(n).len() >= 1,
        n < pow128(varint_bytes(n).len()),
        n <= u64::MAX ==> varint_bytes(n).len() <= MAX_VARINT_LEN,
    decreases n,
{
    if n >= 128 {
        lemma_varint_len(n / 128);
        let k = varint_bytes(n / 128).len();
        assert(n < 128 * pow128(k)) by {
            assert(n / 128 < pow128(k));
            assert(n < 128 * (n / 128 + 1));
            assert(128 * (n / 128 + 1) <= 128 * pow128(k)) by (nonlinear_arith)
                requires
                    n / 128 + 1 <= pow128(k),
            ;
        }
        if n <= u64::MAX && k > 9 {
            lemma_varint_lower_bound(n / 128);
            lemma_pow128_monotonic(8, (k - 1) as nat);
            lemma_pow128_values();
        }
    } else {
        lemma_pow128_values();
    }
}

/// A value with an encoding of more than one byte is at least 128 to the
/// power of the number of bytes after the first.
pub proof fn lemma_varint_lower_bound(n: nat)
    ensures
        varint_bytes(n).len() > 1 ==> n >= pow128((varint_bytes(n).len() - 1) as nat),
    decreases n,
{
    if n >= 128 {
        lemma_varint_lower_bound(n / 128);
        let k = varint_bytes(n / 128).len();
        if k > 1 {
            assert(n >= 128 * pow128((k - 1) as nat)) by {
                assert(n >= 128 * (n / 128));
                assert(128 * (n / 128) >= 128 * pow128((k - 1) as nat)) by (nonlinear_arith)
                    requires
                        n / 128 >= pow128((k - 1) as nat),
                ;
            }
        } else {
            lemma_pow128_values();
        }
    }
}

/// The powers of 128 that bound one byte, nine bytes and ten bytes.
pub proof fn lemma_pow128_values()
    ensures
        pow128(1) == 128,
        pow128(8) == 0x100_0000_0000_0000,
        pow128(10) == 0x40_0000_0000_0000_0000,
{
    reveal_with_fuel(pow128, 9);
    assert(pow128(9) == 128 * pow128(8));
    assert(pow128(10) == 128 * pow128(9));
}

/// Powers of 128 grow with the exponent and are never zero.
pub proof fn lemma_pow128_monotonic(a: nat, b: nat)
    requires
        a <= b,
    ensures
        1 <= pow128(a) <= pow128(b),
    decreases b,
{
    if b == 0 {
    } else if a == b {
        lemma_pow128_monotonic(0, (b - 1) as nat);
        lemma_pow128_monotonic((a - 1) as nat, (b - 1) as nat);
    } else {
        lemma_pow128_monotonic(a, (b - 1) as nat);
    }
}

/// Reading what was written gives the value back, whatever follows it.
pub proof fn lemma_varint_round_trip(n: nat, rest: Seq<u8>)
    ensures
        varint_value(varint_bytes(n) + rest) == Some((n, varint_bytes(n).len())),
    decreases n,
{
    let s = varint_bytes(n) + rest;
    if n >= 128 {
        lemma_varint_round_trip(n / 128, rest);
        assert(s.skip(1) =~= varint_bytes(n / 128) + rest);
    }
}

/// Only encodings are read: where `s` starts with a value, it starts with
/// that value's encoding.
pub proof fn lemma_varint_unique(s: Seq<u8>)
    ensures
        varint_value(s) matches Some((v, n)) ==> n <= s.len() && s.subrange(0, n as int)
            =~= varint_bytes(v),
    decreases s.len(),
{
    if s.len() > 0 && s[0] >= 128 {
        lemma_varint_unique(s.skip(1));
        if let Some((v1, n1)) = varint_value(s.skip(1)) {
            if v1 != 0 {
                let v = ((s[0] - 128) + 128 * v1) as nat;
                assert(v / 128 == v1 && v % 128 == s[0] - 128);
                assert(s.subrange(0, n1 as int + 1) =~= seq![s[0]] + s.skip(1).subrange(
                    0,
                    n1 as int,
                ));
            }
        }
    }
}

/// How the value at the start of `s` follows from the value after `j`
/// leading bytes that all have the top bit set.
pub proof fn lemma_varint_prefix(s: Seq<u8>, j: nat)
    requires
        j <= s.len(),
        forall|k: int| 0 <= k < j ==> s[k] >= 128,
    ensures
        match varint_value(s.skip(j as int)) {
            None => varint_value(s) is None,
            Some((v, n)) => if v == 0 && j > 0 {
                varint_value(s) is None
            } else {
                varint_value(s) matches Some((w, m)) && m == n + j && w >= v * pow128(j)
            },
        },
    decreases j,
{
    if j == 0 {
        assert(s.skip(0) =~= s);
    } else {
        let t = s.skip(1);
        let tail = varint_value(s.skip(j as int));
        assert(t.skip(j - 1) =~= s.skip(j as int));
        assert forall|k: int| 0 <= k < j - 1 implies t[k] >= 128 by {
            assert(t[k] == s[k + 1]);
        }
        lemma_varint_prefix(t, (j - 1) as nat);
        assert(s.len() > 0 && s[0] >= 128);
        assert(varint_value(s) == match varint_value(t) {
            Some((v, n)) => if v == 0 {
                None
            } else {
                Some((((s[0] - 128) + 128 * v) as nat, n + 1))
            },
            None => None,
        });
        match tail {
            None => {
                assert(varint_value(t) is None);
            },
            Some((v, n)) => {
                if v == 0 {
                    if j == 1 {
                        assert(t.skip(0) =~= t);
                        assert(varint_value(t) == tail);
                    } else {
                        assert(varint_value(t) is None);
                    }
                    assert(varint_value(s) is None);
                } else {
                    let w1 = match varint_value(t) {
                        Some((w, _)) => w,
                        None => 0,
                    };
                    assert(varint_value(t) matches Some((w, m)) && m == n + j - 1 && w >= v
                        * pow128((j - 1) as nat));
                    lemma_pow128_monotonic(0, (j - 1) as nat);
                    assert(w1 >= 1) by (nonlinear_arith)
                        requires
                            w1 >= v * pow128((j - 1) as nat),
                            v >= 1,
                            pow128((j - 1) as nat) >= 1,
                    ;
                    assert(128 * w1 >= v * pow128(j)) by (nonlinear_arith)
                        requires
                            w1 >= v * pow128((j - 1) as nat),
                            pow128(j) == 128 * pow128((j - 1) as nat),
                    ;
                    assert(varint_value(s) matches Some((w, m)) && m == n + j && w >= v * pow128(
                        j,
                    ));
                }
            },
        }
    }
}

/// Appends the encoding of `value` to `out`.
pub fn encode_varint(value: u64, out: &mut Vec<u8>)
    ensures
        final(out)@ == old(out)@ + varint_bytes(value as nat),
{
    let ghost start = out@;
    let mut n: u64 = value;
    while n >= 128
        invariant
            out@ + varint_bytes(n as nat) == start + varint_bytes(value as nat),
        decreases n,
    {
        let ghost before = out@;
        out.push((n % 128 + 128) as u8);
        proof {
            assert(out@ + varint_bytes((n / 128) as nat) =~= before + varint_bytes(n as nat));
        }
        n = n / 128;
    }
    let ghost before = out@;
    out.push(n as u8);
    proof {
        assert(out@ =~= before + varint_bytes(n as nat));
    }
}

/// Reads the 64-bit value that `bytes` starts with. Returns the value and the
/// number of bytes that hold it, or `None` where `bytes` does not start with
/// the encoding of a 64-bit value.
pub fn decode_varint(bytes: &[u8]) -> (r: Option<(u64, usize)>)
    ensures
        varint_u64(bytes@) == match r {
            Some((v, n)) => Some((v, n as nat)),
            None => None,
        },
        r matches Some((_, n)) ==> 1 <= n <= bytes@.len(),
{
    let len = bytes.len();
    let mut last: usize = 0;
    while last < len && last < MAX_VARINT_LEN && bytes[last] >= 128
        invariant
            last <= len,
            last <= MAX_VARINT_LEN,
            len == bytes@.len(),
            forall|k: int| 0 <= k < last ==> bytes@[k] >= 128,
        decreases len - last,
    {
        last = last + 1;
    }
    if last == len || last == MAX_VARINT_LEN {
        proof {
            lemma_varint_prefix(bytes@, last as nat);
            if last < len {
                lemma_pow128_values();
                if let Some((v, n)) = varint_value(bytes@.skip(last as int)) {
                    if v != 0 {
                        assert(v * pow128(10) >= pow128(10)) by (nonlinear_arith)
                            requires
                                v >= 1,
                        ;
                    }
                }
            }
        }
        return None;
    }
    proof {
        lemma_varint_prefix(bytes@, last as nat);
    }
    if last > 0 && bytes[last] == 0 {
        return None;
    }
    let mut v: u64 = bytes[last] as u64;
    let mut j: usize = last;
    while j > 0
        invariant
            j <= last < len,
            len == bytes@.len(),
            last > 0 ==> v >= 1,
            forall|k: int| 0 <= k < last ==> bytes@[k] >= 128,
            varint_value(bytes@.skip(j as int)) == Some((v as nat, (last - j + 1) as nat)),
        decreases j,
    {
        j = j - 1;
        let low: u64 = (bytes[j] - 128) as u64;
        proof {
            assert(bytes@.skip(j as int).skip(1) =~= bytes@.skip(j + 1));
            lemma_varint_prefix(bytes@, j as nat);
            lemma_pow128_monotonic(0, j as nat);
            assert((low + 128 * v) * pow128(j as nat) >= low + 128 * v) by (nonlinear_arith)
                requires
                    pow128(j as nat) >= 1,
            ;
        }
        if v > (u64::MAX - low) / 128 {
            return None;
        }
        v = low + 128 * v;
    }
    proof {
        assert(bytes@.skip(0) =~= bytes@);
    }
    Some((v, last + 1))
}

} // verus!
