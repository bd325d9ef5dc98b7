//! Fixed-width integers as four bytes, in either byte order.

use vstd::prelude::*;

verus! {

/// The order in which the four bytes of a 32-bit integer are laid out.
#[derive(Clone, Copy, Debug, PartialEq, Eq, Structural)]
pub enum ByteOrder {
    /// Least significant byte first.
    Little,
    /// Most significant byte first.
    Big,
}

/// The four bytes of `v` in the given order.
pub open spec fn u32_bytes(order: ByteOrder, v: u32) -> Seq<u8> {
    let b0 = (v % 0x100) as u8;
    let b1 = (v / 0x100 % 0x100) as u8;
    let b2 = (v / 0x100 / 0x100 % 0x100) as u8;
    let b3 = (v / 0x100 / 0x100 / 0x100) as u8;
    match order {
        ByteOrder::Little => seq![b0, b1, b2, b3],
        ByteOrder::Big => seq![b3, b2, b1, b0],
    }
}

/// The integer whose bytes in the given order are the first four of `bytes`.
pub open spec fn u32_of_bytes(order: ByteOrder, bytes: Seq<u8>) -> u32
    recommends
        bytes.len() >= 4,
{
    match order {
        ByteOrder::Little => (bytes[0] + 0x100 * bytes[1] + 0x1_0000 * bytes[2] + 0x100_0000
            * bytes[3]) as u32,
        ByteOrder::Big => (bytes[3] + 0x100 * bytes[2] + 0x1_0000 * bytes[1] + 0x100_0000
            * bytes[0]) as u32,
    }
}

/// The unsigned integer with the same 32 bits as `v` (two's complement).
pub open spec fn unsigned_bits(v: i32) -> u32 {
    if v < 0 {
        (v + 0x1_0000_0000) as u32
    } else {
        v as u32
    }
}

/// The signed integer with the same 32 bits as `v` (two's complement).
pub open spec fn signed_bits(v: u32) -> i32 {
    if v >= 0x8000_0000 {
        (v - 0x1_0000_0000) as i32
    } else {
        v as i32
    }
}

/// The four bytes of `v` in the given order.
pub open spec fn i32_bytes(order: ByteOrder, v: i32) -> Seq<u8> {
    u32_bytes(order, unsigned_bits(v))
}

/// The signed integer whose bytes in the given order are the first four of `bytes`.
pub open spec fn i32_of_bytes(order: ByteOrder, bytes: Seq<u8>) -> i32
    recommends
        bytes.len() >= 4,
{
    signed_bits(u32_of_bytes(order, bytes))
}

/// Splitting `v` into four base-256 digits and summing them up again gives `v`.
proof fn lemma_split_digits(v: int)
    requires
        0 <= v < 0x1_0000_0000,
    ensures
        0 <= v / 0x100 / 0x100 / 0x100 < 0x100,
        v == v % 0x100 + 0x100 * (v / 0x100 % 0x100) + 0x1_0000 * (v / 0x100 / 0x100 % 0x100)
            + 0x100_0000 * (v / 0x100 / 0x100 / 0x100),
{
    let q1 = v / 0x100;
    let q2 = q1 / 0x100;
    let q3 = q2 / 0x100;
    assert(v == 0x100 * q1 + v % 0x100);
    assert(q1 == 0x100 * q2 + q1 % 0x100);
    assert(q2 == 0x100 * q3 + q2 % 0x100);
}

/// Four base-256 digits are recovered from their sum by division.
proof fn lemma_join_digits(b0: int, b1: int, b2: int, b3: int)
    requires
        0 <= b0 < 0x100,
        0 <= b1 < 0x100,
        0 <= b2 < 0x100,
        0 <= b3 < 0x100,
    ensures
        ({
            let v = b0 + 0x100 * b1 + 0x1_0000 * b2 + 0x100_0000 * b3;
            &&& 0 <= v < 0x1_0000_0000
            &&& v % 0x100 == b0
            &&& v / 0x100 % 0x100 == b1
            &&& v / 0x100 / 0x100 % 0x100 == b2
            &&& v / 0x100 / 0x100 / 0x100 == b3
        }),
{
    let v = b0 + 0x100 * b1 + 0x1_0000 * b2 + 0x100_0000 * b3;
    let r1 = b1 + 0x100 * b2 + 0x1_0000 * b3;
    let r2 = b2 + 0x100 * b3;
    assert(v == 0x100 * r1 + b0);
    assert(v / 0x100 == r1);
    assert(r1 == 0x100 * r2 + b1);
    assert(r1 / 0x100 == r2);
    assert(r2 / 0x100 == b3);
}

/// Reading back the bytes of an unsigned integer gives that integer.
pub proof fn lemma_u32_round_trip(order: ByteOrder, v: u32)
    ensures
        u32_bytes(order, v).len() == 4,
        u32_of_bytes(order, u32_bytes(order, v)) == v,
{
    lemma_split_digits(v as int);
}

/// Reading back the bytes of a signed integer gives that integer.
pub proof fn lemma_i32_round_trip(order: ByteOrder, v: i32)
    ensures
        i32_bytes(order, v).len() == 4,
        i32_of_bytes(order, i32_bytes(order, v)) == v,
{
    lemma_u32_round_trip(order, unsigned_bits(v));
}

/// Four bytes are the bytes of the unsigned integer they spell.
pub proof fn lemma_u32_bytes_unique(order: ByteOrder, bytes: Seq<u8>)
    requires
        bytes.len() == 4,
    ensures
        u32_bytes(order, u32_of_bytes(order, bytes)) == bytes,
{
    match order {
        ByteOrder::Little => {
            lemma_join_digits(bytes[0] as int, bytes[1] as int, bytes[2] as int, bytes[3] as int);
        },
        ByteOrder::Big => {
            lemma_join_digits(bytes[3] as int, bytes[2] as int, bytes[1] as int, bytes[0] as int);
        },
    }
    assert(u32_bytes(order, u32_of_bytes(order, bytes)) =~= bytes);
}

/// Four bytes are the bytes of the signed integer they spell.
pub proof fn lemma_i32_bytes_unique(order: ByteOrder, bytes: Seq<u8>)
    requires
        bytes.len() == 4,
    ensures
        i32_bytes(order, i32_of_bytes(order, bytes)) == bytes,
{
    lemma_u32_bytes_unique(order, bytes);
}

} // verus!
