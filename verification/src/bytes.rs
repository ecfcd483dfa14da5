//! Byte order: how an unsigned number is spelled in bytes, and read back.
//!
//! A sequence of bytes spells a number in base 256. In little-endian order the
//! first byte is the least significant digit, in big-endian order it is the
//! most significant one. The conversions for 16, 32 and 64-bit values are
//! plain arithmetic, so that no device knowledge enters into the byte order of
//! a transfer.

use vstd::prelude::*;

verus! {

/// The order in which the bytes of a multi-byte value are laid out.
#[derive(Copy, Clone, Debug, PartialEq, Eq, Structural)]
pub enum ByteOrder {
    /// Least significant byte first.
    Little,
    /// Most significant byte first.
    Big,
}

/// A buffer of `n` zero bytes, as the typed accessors hand to a read.
pub open spec fn zeros(n: nat) -> Seq<u8> {
    Seq::new(n, |i: int| 0u8)
}

/// The number of values that `width` bytes can spell: 256 to the power of
/// `width`.
pub open spec fn limit(width: nat) -> nat
    decreases width,
{
    if width == 0 {
        1
    } else {
        0x100 * limit((width - 1) as nat)
    }
}

/// The numbers of values that one, two, four and eight bytes can spell.
pub proof fn lemma_limits()
    ensures
        limit(1) == 0x100,
        limit(2) == 0x1_0000,
        limit(4) == 0x1_0000_0000,
        limit(8) == 0x1_0000_0000_0000_0000,
{
    reveal_with_fuel(limit, 9);
}

/// The number that the bytes `s` spell, least significant byte first.
pub open spec fn le_value(s: Seq<u8>) -> nat
    decreases s.len(),
{
    if s.len() == 0 {
        0
    } else {
        s.first() as nat + 0x100 * le_value(s.drop_first())
    }
}

/// The number that the bytes `s` spell, most significant byte first.
pub open spec fn be_value(s: Seq<u8>) -> nat
    decreases s.len(),
{
    if s.len() == 0 {
        0
    } else {
        0x100 * be_value(s.drop_last()) + s.last() as nat
    }
}

/// The number that the bytes `s` spell in the given order.
pub open spec fn value_in(order: ByteOrder, s: Seq<u8>) -> nat {
    match order {
        ByteOrder::Little => le_value(s),
        ByteOrder::Big => be_value(s),
    }
}

/// The lowest `width` base-256 digits of `v`, least significant first.
pub open spec fn le_bytes(v: nat, width: nat) -> Seq<u8>
    decreases width,
{
    if width == 0 {
        Seq::empty()
    } else {
        seq![(v % 0x100) as u8] + le_bytes(v / 0x100, (width - 1) as nat)
    }
}

/// The lowest `width` base-256 digits of `v`, most significant first.
pub open spec fn be_bytes(v: nat, width: nat) -> Seq<u8>
    decreases width,
{
    if width == 0 {
        Seq::empty()
    } else {
        be_bytes(v / 0x100, (width - 1) as nat).push((v % 0x100) as u8)
    }
}

/// The lowest `width` base-256 digits of `v` in the given order.
pub open spec fn bytes_in(order: ByteOrder, v: nat, width: nat) -> Seq<u8> {
    match order {
        ByteOrder::Little => le_bytes(v, width),
        ByteOrder::Big => be_bytes(v, width),
    }
}

/// A value is spelled in as many bytes as are asked for.
pub proof fn lemma_bytes_len(order: ByteOrder, v: nat, width: nat)
    ensures
        bytes_in(order, v, width).len() == width,
    decreases width,
{
    if width > 0 {
        lemma_bytes_len(order, v / 0x100, (width - 1) as nat);
    }
}

/// A value that `width` bytes can spell is read back from its `width` bytes,
/// in either order.
pub proof fn lemma_value_of_bytes(order: ByteOrder, v: nat, width: nat)
    requires
        v < limit(width),
    ensures
        value_in(order, bytes_in(order, v, width)) == v,
    decreases width,
{
    if width > 0 {
        let rest = (width - 1) as nat;
        lemma_value_of_bytes(order, v / 0x100, rest);
        lemma_bytes_len(order, v / 0x100, rest);
        match order {
            ByteOrder::Little => {
                let s = le_bytes(v, width);
                assert(s.drop_first() =~= le_bytes(v / 0x100, rest));
            },
            ByteOrder::Big => {
                let s = be_bytes(v, width);
                assert(s.drop_last() =~= be_bytes(v / 0x100, rest));
            },
        }
    }
}

/// The number that bytes spell, in either order, is one that as many bytes
/// can spell, and spelling it in that order gives the same bytes again.
pub proof fn lemma_bytes_of_value(order: ByteOrder, s: Seq<u8>)
    ensures
        value_in(order, s) < limit(s.len()),
        bytes_in(order, value_in(order, s), s.len()) == s,
    decreases s.len(),
{
    if s.len() > 0 {
        match order {
            ByteOrder::Little => {
                lemma_bytes_of_value(order, s.drop_first());
                assert(le_bytes(le_value(s), s.len()) =~= s);
            },
            ByteOrder::Big => {
                lemma_bytes_of_value(order, s.drop_last());
                assert(be_bytes(be_value(s), s.len()) =~= s);
            },
        }
    }
}

/// Spelling a value most significant byte first gives the bytes of the
/// little-endian spelling in reverse.
pub proof fn lemma_be_is_le_reversed(v: nat, width: nat)
    ensures
        be_bytes(v, width) == le_bytes(v, width).reverse(),
    decreases width,
{
    if width > 0 {
        let rest = (width - 1) as nat;
        lemma_be_is_le_reversed(v / 0x100, rest);
        lemma_bytes_len(ByteOrder::Little, v / 0x100, rest);
        assert(be_bytes(v, width) =~= le_bytes(v, width).reverse());
    } else {
        assert(be_bytes(v, width) =~= le_bytes(v, width).reverse());
    }
}

/// The 2 base-256 digits of `v`, read off by division, least significant
/// first.
spec fn digits_u16(v: u16) -> Seq<u8> {
    seq![(v % 0x100) as u8, (v / 0x100) as u8]
}

/// The digits of a `u16`, read off by division, are its 2 bytes: in this
/// order the little-endian ones, in reverse the big-endian ones.
proof fn lemma_digits_u16(v: u16)
    ensures
        v < limit(2),
        le_bytes(v as nat, 2) == digits_u16(v),
        be_bytes(v as nat, 2) == digits_u16(v).reverse(),
{
    reveal_with_fuel(le_bytes, 3);
    reveal_with_fuel(limit, 3);
    let q0: int = v as int;
    let q1: int = q0 / 0x100;
    assert(q1 == v as int / 0x100);
    assert(q1 < 0x100);
    assert(le_bytes(v as nat, 2) =~= digits_u16(v));
    lemma_be_is_le_reversed(v as nat, 2);
}

/// The sum of the first 2 bytes of `s`, each weighted by its power of 256,
/// the first byte the least.
spec fn weighted_u16(s: Seq<u8>) -> int {
    s[0] + s[1] * 0x100
}

/// 2 bytes weighted by their powers of 256 sum to the `u16` that they spell
/// least significant byte first.
proof fn lemma_weights_u16(s: Seq<u8>)
    requires
        s.len() == 2,
    ensures
        weighted_u16(s) <= u16::MAX,
        le_value(s) == weighted_u16(s),
        be_value(s.reverse()) == weighted_u16(s),
{
    let part1: int = s[1] as int;
    let part0: int = part1 * 0x100 + s[0];
    assert(part0 == weighted_u16(s));
    reveal_with_fuel(le_bytes, 3);
    reveal_with_fuel(limit, 3);
    assert(part0 / 0x100 == part1);
    assert(part0 % 0x100 == s[0]);
    assert(part1 / 0x100 == 0);
    assert(part0 < limit(2));
    assert(le_bytes(part0 as nat, 2) =~= s);
    lemma_value_of_bytes(ByteOrder::Little, part0 as nat, 2);
    lemma_be_is_le_reversed(part0 as nat, 2);
    lemma_value_of_bytes(ByteOrder::Big, part0 as nat, 2);
}

/// Lays `v` out most significant byte first.
pub fn u16_to_be_bytes(v: u16) -> (b: [u8; 2])
    ensures
        b@ == be_bytes(v as nat, 2),
{
    let b = [(v / 0x100) as u8, (v % 0x100) as u8];
    proof {
        lemma_digits_u16(v);
        assert(b@ =~= digits_u16(v).reverse());
    }
    b
}

/// Lays `v` out least significant byte first.
pub fn u16_to_le_bytes(v: u16) -> (b: [u8; 2])
    ensures
        b@ == le_bytes(v as nat, 2),
{
    let b = [(v % 0x100) as u8, (v / 0x100) as u8];
    proof {
        lemma_digits_u16(v);
        assert(b@ =~= digits_u16(v));
    }
    b
}

/// Reads the 2 bytes as a value, most significant byte first.
pub fn u16_from_be_bytes(b: [u8; 2]) -> (v: u16)
    ensures
        v == be_value(b@),
{
    proof {
        lemma_weights_u16(b@.reverse());
        assert(b@.reverse().reverse() =~= b@);
    }
    b[1] as u16 + b[0] as u16 * 0x100
}

/// Reads the 2 bytes as a value, least significant byte first.
pub fn u16_from_le_bytes(b: [u8; 2]) -> (v: u16)
    ensures
        v == le_value(b@),
{
    proof {
        lemma_weights_u16(b@);
    }
    b[0] as u16 + b[1] as u16 * 0x100
}

/// The 4 base-256 digits of `v`, read off by division, least significant
/// first.
spec fn digits_u32(v: u32) -> Seq<u8> {
    seq![
        (v % 0x100) as u8,
        (v / 0x100 % 0x100) as u8,
        (v / 0x1_0000 % 0x100) as u8,
        (v / 0x100_0000) as u8,
    ]
}

/// The digits of a `u32`, read off by division, are its 4 bytes: in this
/// order the little-endian ones, in reverse the big-endian ones.
proof fn lemma_digits_u32(v: u32)
    ensures
        v < limit(4),
        le_bytes(v as nat, 4) == digits_u32(v),
        be_bytes(v as nat, 4) == digits_u32(v).reverse(),
{
    reveal_with_fuel(le_bytes, 5);
    reveal_with_fuel(limit, 5);
    let q0: int = v as int;
    let q1: int = q0 / 0x100;
    assert(q1 == v as int / 0x100);
    let q2: int = q1 / 0x100;
    assert(q2 == v as int / 0x1_0000);
    let q3: int = q2 / 0x100;
    assert(q3 == v as int / 0x100_0000);
    assert(q3 < 0x100);
    assert(le_bytes(v as nat, 4) =~= digits_u32(v));
    lemma_be_is_le_reversed(v as nat, 4);
}

/// The sum of the first 4 bytes of `s`, each weighted by its power of 256,
/// the first byte the least.
spec fn weighted_u32(s: Seq<u8>) -> int {
    s[0]
        + s[1] * 0x100
        + s[2] * 0x1_0000
        + s[3] * 0x100_0000
}

/// 4 bytes weighted by their powers of 256 sum to the `u32` that they spell
/// least significant byte first.
proof fn lemma_weights_u32(s: Seq<u8>)
    requires
        s.len() == 4,
    ensures
        weighted_u32(s) <= u32::MAX,
        le_value(s) == weighted_u32(s),
        be_value(s.reverse()) == weighted_u32(s),
{
    let part3: int = s[3] as int;
    let part2: int = part3 * 0x100 + s[2];
    let part1: int = part2 * 0x100 + s[1];
    let part0: int = part1 * 0x100 + s[0];
    assert(part0 == weighted_u32(s));
    reveal_with_fuel(le_bytes, 5);
    reveal_with_fuel(limit, 5);
    assert(part0 / 0x100 == part1);
    assert(part0 % 0x100 == s[0]);
    assert(part1 / 0x100 == part2);
    assert(part1 % 0x100 == s[1]);
    assert(part2 / 0x100 == part3);
    assert(part2 % 0x100 == s[2]);
    assert(part3 / 0x100 == 0);
    assert(part0 < limit(4));
    assert(le_bytes(part0 as nat, 4) =~= s);
    lemma_value_of_bytes(ByteOrder::Little, part0 as nat, 4);
    lemma_be_is_le_reversed(part0 as nat, 4);
    lemma_value_of_bytes(ByteOrder::Big, part0 as nat, 4);
}

/// Lays `v` out most significant byte first.
pub fn u32_to_be_bytes(v: u32) -> (b: [u8; 4])
    ensures
        b@ == be_bytes(v as nat, 4),
{
    let b = [
        (v / 0x100_0000) as u8,
        (v / 0x1_0000 % 0x100) as u8,
        (v / 0x100 % 0x100) as u8,
        (v % 0x100) as u8,
    ];
    proof {
        lemma_digits_u32(v);
        assert(b@ =~= digits_u32(v).reverse());
    }
    b
}

/// Lays `v` out least significant byte first.
pub fn u32_to_le_bytes(v: u32) -> (b: [u8; 4])
    ensures
        b@ == le_bytes(v as nat, 4),
{
    let b = [
        (v % 0x100) as u8,
        (v / 0x100 % 0x100) as u8,
        (v / 0x1_0000 % 0x100) as u8,
        (v / 0x100_0000) as u8,
    ];
    proof {
        lemma_digits_u32(v);
        assert(b@ =~= digits_u32(v));
    }
    b
}

/// Reads the 4 bytes as a value, most significant byte first.
pub fn u32_from_be_bytes(b: [u8; 4]) -> (v: u32)
    ensures
        v == be_value(b@),
{
    proof {
        lemma_weights_u32(b@.reverse());
        assert(b@.reverse().reverse() =~= b@);
    }
    b[3] as u32
        + b[2] as u32 * 0x100
        + b[1] as u32 * 0x1_0000
        + b[0] as u32 * 0x100_0000
}

/// Reads the 4 bytes as a value, least significant byte first.
pub fn u32_from_le_bytes(b: [u8; 4]) -> (v: u32)
    ensures
        v == le_value(b@),
{
    proof {
        lemma_weights_u32(b@);
    }
    b[0] as u32
        + b[1] as u32 * 0x100
        + b[2] as u32 * 0x1_0000
        + b[3] as u32 * 0x100_0000
}

/// The 8 base-256 digits of `v`, read off by division, least significant
/// first.
spec fn digits_u64(v: u64) -> Seq<u8> {
    seq![
        (v % 0x100) as u8,
        (v / 0x100 % 0x100) as u8,
        (v / 0x1_0000 % 0x100) as u8,
        (v / 0x100_0000 % 0x100) as u8,
        (v / 0x1_0000_0000 % 0x100) as u8,
        (v / 0x100_0000_0000 % 0x100) as u8,
        (v / 0x1_0000_0000_0000 % 0x100) as u8,
        (v / 0x100_0000_0000_0000) as u8,
    ]
}

/// The digits of a `u64`, read off by division, are its 8 bytes: in this
/// order the little-endian ones, in reverse the big-endian ones.
proof fn lemma_digits_u64(v: u64)
    ensures
        v < limit(8),
        le_bytes(v as nat, 8) == digits_u64(v),
        be_bytes(v as nat, 8) == digits_u64(v).reverse(),
{
    reveal_with_fuel(le_bytes, 9);
    reveal_with_fuel(limit, 9);
    let q0: int = v as int;
    let q1: int = q0 / 0x100;
    assert(q1 == v as int / 0x100);
    let q2: int = q1 / 0x100;
    assert(q2 == v as int / 0x1_0000);
    let q3: int = q2 / 0x100;
    assert(q3 == v as int / 0x100_0000);
    let q4: int = q3 / 0x100;
    assert(q4 == v as int / 0x1_0000_0000);
    let q5: int = q4 / 0x100;
    assert(q5 == v as int / 0x100_0000_0000);
    let q6: int = q5 / 0x100;
    assert(q6 == v as int / 0x1_0000_0000_0000);
    let q7: int = q6 / 0x100;
    assert(q7 == v as int / 0x100_0000_0000_0000);
    assert(q7 < 0x100);
    assert(le_bytes(v as nat, 8) =~= digits_u64(v));
    lemma_be_is_le_reversed(v as nat, 8);
}

/// The sum of the first 8 bytes of `s`, each weighted by its power of 256,
/// the first byte the least.
spec fn weighted_u64(s: Seq<u8>) -> int {
    s[0]
        + s[1] * 0x100
        + s[2] * 0x1_0000
        + s[3] * 0x100_0000
        + s[4] * 0x1_0000_0000
        + s[5] * 0x100_0000_0000
        + s[6] * 0x1_0000_0000_0000
        + s[7] * 0x100_0000_0000_0000
}

/// 8 bytes weighted by their powers of 256 sum to the `u64` that they spell
/// least significant byte first.
proof fn lemma_weights_u64(s: Seq<u8>)
    requires
        s.len() == 8,
    ensures
        weighted_u64(s) <= u64::MAX,
        le_value(s) == weighted_u64(s),
        be_value(s.reverse()) == weighted_u64(s),
{
    let part7: int = s[7] as int;
    let part6: int = part7 * 0x100 + s[6];
    let part5: int = part6 * 0x100 + s[5];
    let part4: int = part5 * 0x100 + s[4];
    let part3: int = part4 * 0x100 + s[3];
    let part2: int = part3 * 0x100 + s[2];
    let part1: int = part2 * 0x100 + s[1];
    let part0: int = part1 * 0x100 + s[0];
    assert(part0 == weighted_u64(s));
    reveal_with_fuel(le_bytes, 9);
    reveal_with_fuel(limit, 9);
    assert(part0 / 0x100 == part1);
    assert(part0 % 0x100 == s[0]);
    assert(part1 / 0x100 == part2);
    assert(part1 % 0x100 == s[1]);
    assert(part2 / 0x100 == part3);
    assert(part2 % 0x100 == s[2]);
    assert(part3 / 0x100 == part4);
    assert(part3 % 0x100 == s[3]);
    assert(part4 / 0x100 == part5);
    assert(part4 % 0x100 == s[4]);
    assert(part5 / 0x100 == part6);
    assert(part5 % 0x100 == s[5]);
    assert(part6 / 0x100 == part7);
    assert(part6 % 0x100 == s[6]);
    assert(part7 / 0x100 == 0);
    assert(part0 < limit(8));
    assert(le_bytes(part0 as nat, 8) =~= s);
    lemma_value_of_bytes(ByteOrder::Little, part0 as nat, 8);
    lemma_be_is_le_reversed(part0 as nat, 8);
    lemma_value_of_bytes(ByteOrder::Big, part0 as nat, 8);
}

/// Lays `v` out most significant byte first.
pub fn u64_to_be_bytes(v: u64) -> (b: [u8; 8])
    ensures
        b@ == be_bytes(v as nat, 8),
{
    let b = [
        (v / 0x100_0000_0000_0000) as u8,
        (v / 0x1_0000_0000_0000 % 0x100) as u8,
        (v / 0x100_0000_0000 % 0x100) as u8,
        (v / 0x1_0000_0000 % 0x100) as u8,
        (v / 0x100_0000 % 0x100) as u8,
        (v / 0x1_0000 % 0x100) as u8,
        (v / 0x100 % 0x100) as u8,
        (v % 0x100) as u8,
    ];
    proof {
        lemma_digits_u64(v);
        assert(b@ =~= digits_u64(v).reverse());
    }
    b
}

/// Lays `v` out least significant byte first.
pub fn u64_to_le_bytes(v: u64) -> (b: [u8; 8])
    ensures
        b@ == le_bytes(v as nat, 8),
{
    let b = [
        (v % 0x100) as u8,
        (v / 0x100 % 0x100) as u8,
        (v / 0x1_0000 % 0x100) as u8,
        (v / 0x100_0000 % 0x100) as u8,
        (v / 0x1_0000_0000 % 0x100) as u8,
        (v / 0x100_0000_0000 % 0x100) as u8,
        (v / 0x1_0000_0000_0000 % 0x100) as u8,
        (v / 0x100_0000_0000_0000) as u8,
    ];
    proof {
        lemma_digits_u64(v);
        assert(b@ =~= digits_u64(v));
    }
    b
}

/// Reads the 8 bytes as a value, most significant byte first.
pub fn u64_from_be_bytes(b: [u8; 8]) -> (v: u64)
    ensures
        v == be_value(b@),
{
    proof {
        lemma_weights_u64(b@.reverse());
        assert(b@.reverse().reverse() =~= b@);
    }
    b[7] as u64
        + b[6] as u64 * 0x100
        + b[5] as u64 * 0x1_0000
        + b[4] as u64 * 0x100_0000
        + b[3] as u64 * 0x1_0000_0000
        + b[2] as u64 * 0x100_0000_0000
        + b[1] as u64 * 0x1_0000_0000_0000
        + b[0] as u64 * 0x100_0000_0000_0000
}

/// Reads the 8 bytes as a value, least significant byte first.
pub fn u64_from_le_bytes(b: [u8; 8]) -> (v: u64)
    ensures
        v == le_value(b@),
{
    proof {
        lemma_weights_u64(b@);
    }
    b[0] as u64
        + b[1] as u64 * 0x100
        + b[2] as u64 * 0x1_0000
        + b[3] as u64 * 0x100_0000
        + b[4] as u64 * 0x1_0000_0000
        + b[5] as u64 * 0x100_0000_0000
        + b[6] as u64 * 0x1_0000_0000_0000
        + b[7] as u64 * 0x100_0000_0000_0000
}

} // verus!
