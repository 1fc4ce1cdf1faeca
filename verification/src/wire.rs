//! Integers on the wire: little-endian bytes, two's complement for the
//! signed ones.
//!
//! A buffer that is shorter than the type it is read as stands for the
//! number whose missing high bytes are zero; a longer one does not fit.

use vstd::prelude::*;

verus! {

/// 256 to the power of `n`.
pub open spec fn pow256(n: nat) -> nat
    decreases n,
{
    if n == 0 {
        1
    } else {
        0x100 * pow256((n - 1) as nat)
    }
}

/// The number that little-endian `bytes` stand for.
pub open spec fn le_value(bytes: Seq<u8>) -> nat
    decreases bytes.len(),
{
    if bytes.len() == 0 {
        0
    } else {
        bytes[0] as nat + 0x100 * le_value(bytes.skip(1))
    }
}

/// The `width` low bytes of `value`, the lowest first.
pub open spec fn le_bytes(value: nat, width: nat) -> Seq<u8>
    decreases width,
{
    if width == 0 {
        Seq::empty()
    } else {
        seq![(value % 0x100) as u8] + le_bytes(value / 0x100, (width - 1) as nat)
    }
}

/// The number below `pow256(width)` that stands for `value` in two's
/// complement.
pub open spec fn unsigned_of(value: int, width: nat) -> nat {
    if value < 0 {
        (value + pow256(width)) as nat
    } else {
        value as nat
    }
}

/// The signed number that `n` stands for in two's complement of `width`
/// bytes.
pub open spec fn signed_of(n: nat, width: nat) -> int {
    if 2 * n >= pow256(width) {
        n - pow256(width)
    } else {
        n as int
    }
}

/// Whether `value` is a signed number of `width` bytes.
pub open spec fn fits_signed(value: int, width: nat) -> bool {
    -(pow256(width) as int) <= 2 * value < pow256(width)
}

/// The bytes of a signed number of `width` bytes.
pub open spec fn int_bytes(value: int, width: nat) -> Seq<u8> {
    le_bytes(unsigned_of(value, width), width)
}

/// The signed number that `bytes` stand for when read as `width` bytes.
pub open spec fn int_value(bytes: Seq<u8>, width: nat) -> int {
    signed_of(le_value(bytes), width)
}

/// The powers of 256 that the widths of this module need.
pub proof fn lemma_pow256_values()
    ensures
        pow256(0) == 1,
        pow256(1) == 0x100,
        pow256(2) == 0x1_0000,
        pow256(3) == 0x100_0000,
        pow256(4) == 0x1_0000_0000,
        pow256(5) == 0x100_0000_0000,
        pow256(6) == 0x1_0000_0000_0000,
        pow256(7) == 0x100_0000_0000_0000,
        pow256(8) == 0x1_0000_0000_0000_0000,
{
    reveal_with_fuel(pow256, 9);
}

/// The powers of 256 grow.
pub proof fn lemma_pow256_monotonic(a: nat, b: nat)
    requires
        a <= b,
    ensures
        0 < pow256(a) <= pow256(b),
    decreases b,
{
    if b == 0 {
    } else if a == b {
        lemma_pow256_monotonic(0, (b - 1) as nat);
    } else {
        lemma_pow256_monotonic(a, (b - 1) as nat);
    }
}

/// Bytes stand for a number below 256 to the power of their count.
pub proof fn lemma_le_value_bound(bytes: Seq<u8>)
    ensures
        le_value(bytes) < pow256(bytes.len()),
    decreases bytes.len(),
{
    if bytes.len() > 0 {
        lemma_le_value_bound(bytes.skip(1));
    }
}

/// `le_bytes` yields `width` bytes.
pub proof fn lemma_le_bytes_len(value: nat, width: nat)
    ensures
        le_bytes(value, width).len() == width,
    decreases width,
{
    if width > 0 {
        lemma_le_bytes_len(value / 0x100, (width - 1) as nat);
    }
}

/// The bytes of a number that fits stand for that number.
pub proof fn lemma_le_round_trip(value: nat, width: nat)
    requires
        value < pow256(width),
    ensures
        le_value(le_bytes(value, width)) == value,
    decreases width,
{
    if width > 0 {
        let rest = le_bytes(value / 0x100, (width - 1) as nat);
        lemma_le_round_trip(value / 0x100, (width - 1) as nat);
        assert(le_bytes(value, width).skip(1) =~= rest);
    }
}

/// The bytes of a signed number that fits stand for that number.
pub proof fn lemma_int_round_trip(value: int, width: nat)
    requires
        fits_signed(value, width),
    ensures
        int_bytes(value, width).len() == width,
        int_value(int_bytes(value, width), width) == value,
{
    lemma_le_bytes_len(unsigned_of(value, width), width);
    lemma_le_round_trip(unsigned_of(value, width), width);
}

/// The number that `bytes` stand for, if they are at most `width` bytes.
pub fn decode_uint(bytes: &[u8], width: usize) -> (r: Option<u64>)
    requires
        width <= 8,
    ensures
        bytes@.len() <= width ==> r == Some(le_value(bytes@) as u64) && le_value(bytes@) < pow256(
            width as nat,
        ),
        bytes@.len() > width ==> r is None,
{
    let len = bytes.len();
    if len > width {
        return None;
    }
    let mut acc: u64 = 0;
    let mut i: usize = len;
    proof {
        assert(bytes@.subrange(len as int, len as int) =~= Seq::<u8>::empty());
    }
    while i > 0
        invariant
            i <= len,
            len == bytes@.len(),
            len <= 8,
            acc == le_value(bytes@.subrange(i as int, len as int)),
            acc < pow256((len - i) as nat),
        decreases i,
    {
        proof {
            lemma_pow256_values();
            lemma_pow256_monotonic((len - i) as nat, 7);
            let tail = bytes@.subrange(i - 1, len as int);
            assert(tail.skip(1) =~= bytes@.subrange(i as int, len as int));
            assert(tail[0] == bytes@[i - 1]);
        }
        i = i - 1;
        acc = acc * 0x100 + bytes[i] as u64;
    }
    proof {
        assert(bytes@.subrange(0, len as int) =~= bytes@);
        lemma_pow256_monotonic(len as nat, width as nat);
    }
    Some(acc)
}

/// The `width` low bytes of `value`, the lowest first.
pub fn encode_uint(value: u64, width: usize) -> (r: Vec<u8>)
    requires
        width <= 8,
    ensures
        r@ == le_bytes(value as nat, width as nat),
        r@.len() == width,
{
    let mut out: Vec<u8> = Vec::new();
    let mut rest: u64 = value;
    let mut i: usize = 0;
    while i < width
        invariant
            i <= width,
            out@.len() == i,
            le_bytes(value as nat, width as nat) == out@ + le_bytes(rest as nat, (width - i) as nat),
        decreases width - i,
    {
        proof {
            let k = (width - i) as nat;
            assert(le_bytes(rest as nat, k) == seq![(rest as nat % 0x100) as u8] + le_bytes(
                rest as nat / 0x100,
                (k - 1) as nat,
            ));
            assert(out@.push((rest % 0x100) as u8) + le_bytes(rest as nat / 0x100, (k - 1) as nat)
                =~= out@ + le_bytes(rest as nat, k));
        }
        out.push((rest % 0x100) as u8);
        rest = rest / 0x100;
        i = i + 1;
    }
    proof {
        assert(le_bytes(rest as nat, 0) =~= Seq::<u8>::empty());
        assert(out@ + Seq::<u8>::empty() =~= out@);
    }
    out
}

/// The signed number of `width` bytes that `bytes` stand for, if they are
/// at most `width` bytes.
pub fn decode_int(bytes: &[u8], width: usize) -> (r: Option<i64>)
    requires
        1 <= width <= 8,
    ensures
        bytes@.len() <= width ==> r == Some(int_value(bytes@, width as nat) as i64) && fits_signed(
            int_value(bytes@, width as nat),
            width as nat,
        ),
        bytes@.len() > width ==> r is None,
{
    match decode_uint(bytes, width) {
        None => None,
        Some(n) => {
            proof {
                lemma_pow256_values();
                lemma_pow256_monotonic(1, width as nat);
                lemma_pow256_monotonic(width as nat, 8);
            }
            let limit: u128 = power_of_256(width);
            if 2 * (n as u128) >= limit {
                Some((n as i128 - limit as i128) as i64)
            } else {
                Some(n as i64)
            }
        },
    }
}

/// The bytes of a signed number of `width` bytes.
pub fn encode_int(value: i64, width: usize) -> (r: Vec<u8>)
    requires
        1 <= width <= 8,
        fits_signed(value as int, width as nat),
    ensures
        r@ == int_bytes(value as int, width as nat),
        r@.len() == width,
{
    proof {
        lemma_pow256_values();
        lemma_pow256_monotonic(1, width as nat);
        lemma_pow256_monotonic(width as nat, 8);
    }
    let limit: u128 = power_of_256(width);
    let n: u64 = if value < 0 {
        (value as i128 + limit as i128) as u64
    } else {
        value as u64
    };
    encode_uint(n, width)
}

/// 256 to the power of `n`, for a count of bytes up to 8.
pub fn power_of_256(n: usize) -> (r: u128)
    requires
        n <= 8,
    ensures
        r == pow256(n as nat),
{
    let mut r: u128 = 1;
    let mut i: usize = 0;
    proof {
        lemma_pow256_values();
    }
    while i < n
        invariant
            i <= n <= 8,
            r == pow256(i as nat),
            pow256(8) == 0x1_0000_0000_0000_0000,
        decreases n - i,
    {
        proof {
            lemma_pow256_monotonic(i as nat, 7);
            lemma_pow256_monotonic((i + 1) as nat, 8);
        }
        r = r * 0x100;
        i = i + 1;
    }
    r
}

} // verus!
