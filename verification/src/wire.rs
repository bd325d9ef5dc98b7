//! Integers to bytes and back, through the `bincode` crate.
//!
//! Every function marked `external_body` here is a call into `bincode` (or, for
//! the native byte order, into `std`) whose contract is taken on trust from the
//! called code. The functions below them choose the call by the byte order
//! and are verified against those contracts.

use crate::byte_order::{i32_bytes, i32_of_bytes, u32_bytes, u32_of_bytes, ByteOrder};
use bincode::Options;
use vstd::prelude::*;

verus! {

/// `bincode::ErrorKind`, the payload of `bincode::Error`; nothing is known of a value.
#[verifier::external_type_specification]
#[verifier::external_body]
pub struct ExErrorKind(bincode::ErrorKind);

/// `bincode::serialize` on an `i32`. The crate's functions use no size limit,
/// little-endian order and fixed-width integers, so the call writes the four
/// bytes of the integer's two's complement form, least significant first, into
/// a new vector; writing into a vector does not fail.
#[verifier::external_body]
fn i32_to_little(v: i32) -> (r: Result<Vec<u8>, bincode::Error>)
    ensures
        r is Ok,
        r matches Ok(bytes) ==> bytes@ == i32_bytes(ByteOrder::Little, v),
{
    bincode::serialize(&v)
}

/// `bincode::Options::serialize` on an `i32`, with fixed-width integers and
/// big-endian order: as `i32_to_little`, most significant byte first.
#[verifier::external_body]
fn i32_to_big(v: i32) -> (r: Result<Vec<u8>, bincode::Error>)
    ensures
        r is Ok,
        r matches Ok(bytes) ==> bytes@ == i32_bytes(ByteOrder::Big, v),
{
    bincode::DefaultOptions::new().with_fixint_encoding().with_big_endian().serialize(&v)
}

/// `bincode::deserialize` to an `i32`. The call reads four bytes from the front
/// of the slice as a little-endian two's complement integer and ignores what
/// follows them; it fails exactly when the slice is shorter than four bytes.
#[verifier::external_body]
fn i32_from_little(bytes: &[u8]) -> (r: Result<i32, bincode::Error>)
    ensures
        r is Ok <==> bytes@.len() >= 4,
        r matches Ok(v) ==> v == i32_of_bytes(ByteOrder::Little, bytes@),
{
    bincode::deserialize::<i32>(bytes)
}

/// `bincode::Options::deserialize` to an `i32`, with fixed-width integers,
/// big-endian order and trailing bytes allowed: as `i32_from_little`, most
/// significant byte first.
#[verifier::external_body]
fn i32_from_big(bytes: &[u8]) -> (r: Result<i32, bincode::Error>)
    ensures
        r is Ok <==> bytes@.len() >= 4,
        r matches Ok(v) ==> v == i32_of_bytes(ByteOrder::Big, bytes@),
{
    bincode::DefaultOptions::new().with_fixint_encoding().allow_trailing_bytes().with_big_endian()
        .deserialize::<i32>(bytes)
}

/// `bincode::deserialize` to a `u32`: as `i32_from_little`, for an unsigned integer.
#[verifier::external_body]
fn u32_from_little(bytes: &[u8]) -> (r: Result<u32, bincode::Error>)
    ensures
        r is Ok <==> bytes@.len() >= 4,
        r matches Ok(v) ==> v == u32_of_bytes(ByteOrder::Little, bytes@),
{
    bincode::deserialize::<u32>(bytes)
}

/// `bincode::Options::deserialize` to a `u32`: as `i32_from_big`, for an unsigned integer.
#[verifier::external_body]
fn u32_from_big(bytes: &[u8]) -> (r: Result<u32, bincode::Error>)
    ensures
        r is Ok <==> bytes@.len() >= 4,
        r matches Ok(v) ==> v == u32_of_bytes(ByteOrder::Big, bytes@),
{
    bincode::DefaultOptions::new().with_fixint_encoding().allow_trailing_bytes().with_big_endian()
        .deserialize::<u32>(bytes)
}

/// The `Display` text of a `bincode::Error`. Nothing is claimed of the text.
#[verifier::external_body]
pub(crate) fn error_text(e: &bincode::Error) -> String {
    format!("{}", e)
}

/// `u32::to_ne_bytes`: the integer's bytes as they lie in this machine's memory,
/// which is one of the two byte orders.
#[verifier::external_body]
fn native_bytes(v: u32) -> (r: [u8; 4])
    ensures
        r@ == u32_bytes(ByteOrder::Little, v) || r@ == u32_bytes(ByteOrder::Big, v),
{
    v.to_ne_bytes()
}

/// The four bytes of `v` in the given order.
pub fn i32_to_bytes(order: ByteOrder, v: i32) -> (r: Result<Vec<u8>, bincode::Error>)
    ensures
        r is Ok,
        r matches Ok(bytes) ==> bytes@ == i32_bytes(order, v),
{
    match order {
        ByteOrder::Little => i32_to_little(v),
        ByteOrder::Big => i32_to_big(v),
    }
}

/// The signed integer at the front of `bytes`, read in the given order.
pub fn i32_from_bytes(order: ByteOrder, bytes: &[u8]) -> (r: Result<i32, bincode::Error>)
    ensures
        r is Ok <==> bytes@.len() >= 4,
        r matches Ok(v) ==> v == i32_of_bytes(order, bytes@),
{
    match order {
        ByteOrder::Little => i32_from_little(bytes),
        ByteOrder::Big => i32_from_big(bytes),
    }
}

/// The unsigned integer at the front of `bytes`, read in the given order.
pub fn u32_from_bytes(order: ByteOrder, bytes: &[u8]) -> (r: Result<u32, bincode::Error>)
    ensures
        r is Ok <==> bytes@.len() >= 4,
        r matches Ok(v) ==> v == u32_of_bytes(order, bytes@),
{
    match order {
        ByteOrder::Little => u32_from_little(bytes),
        ByteOrder::Big => u32_from_big(bytes),
    }
}

/// The byte order that a probe shows: `probe` holds the bytes of the integer 1
/// as some machine stores them.
pub fn order_of_probe(probe: &[u8; 4]) -> (order: ByteOrder)
    ensures
        probe@ == u32_bytes(ByteOrder::Little, 1) ==> order == ByteOrder::Little,
        probe@ == u32_bytes(ByteOrder::Big, 1) ==> order == ByteOrder::Big,
{
    if probe[0] == 1 {
        ByteOrder::Little
    } else {
        ByteOrder::Big
    }
}

/// The byte order of the machine that runs this code.
pub fn host_byte_order() -> ByteOrder {
    let probe = native_bytes(1);
    order_of_probe(&probe)
}

} // verus!
