//! Host and network byte order.
//!
//! Values exchanged with the kernel (addresses and ports stored in socket
//! structures and in the shared maps) are kept in network byte order, that is
//! big-endian in memory.  Read as a native integer on a host of byte order
//! `order`, such a value is the host value itself on a big-endian host and
//! the value with its bytes reversed on a little-endian host.
use vstd::prelude::*;

verus! {

/// The byte order of the host that runs the data plane.
#[derive(Clone, Copy, Debug, PartialEq, Eq, Structural)]
pub enum ByteOrder {
    LittleEndian,
    BigEndian,
}

/// The two bytes of `x` exchanged.
pub open spec fn spec_swap16(x: u16) -> u16 {
    ((x % 256) * 256 + x / 256) as u16
}

/// The four bytes of `x` in reverse order.
pub open spec fn spec_swap32(x: u32) -> u32 {
    ((x % 256) * 0x100_0000 + ((x / 256) % 256) * 0x1_0000 + ((x / 0x1_0000) % 256) * 256 + x
        / 0x100_0000) as u32
}

/// The native reading, on a host of byte order `order`, of the network-order
/// (big-endian) representation of the host value `x`.
pub open spec fn spec_to_network_u16(order: ByteOrder, x: u16) -> u16 {
    match order {
        ByteOrder::BigEndian => x,
        ByteOrder::LittleEndian => spec_swap16(x),
    }
}

/// See [`spec_to_network_u16`].
pub open spec fn spec_to_network_u32(order: ByteOrder, x: u32) -> u32 {
    match order {
        ByteOrder::BigEndian => x,
        ByteOrder::LittleEndian => spec_swap32(x),
    }
}

/// The host value of a network-order value read natively.  Converting to and
/// from network order is the same byte permutation on every host.
pub open spec fn spec_from_network_u16(order: ByteOrder, x: u16) -> u16 {
    spec_to_network_u16(order, x)
}

/// See [`spec_from_network_u16`].
pub open spec fn spec_from_network_u32(order: ByteOrder, x: u32) -> u32 {
    spec_to_network_u32(order, x)
}

/// Reverses the two bytes of `x`.
pub fn swap16(x: u16) -> (r: u16)
    ensures
        r == spec_swap16(x),
{
    let r = (x >> 8u16) | (x << 8u16);
    assert(r == ((x % 256) * 256 + x / 256) as u16) by (bit_vector)
        requires
            r == (x >> 8u16) | (x << 8u16),
    ;
    r
}

/// Reverses the four bytes of `x`.
pub fn swap32(x: u32) -> (r: u32)
    ensures
        r == spec_swap32(x),
{
    let r = (x >> 24u32) | ((x >> 8u32) & 0xff00u32) | ((x << 8u32) & 0xff_0000u32) | (x << 24u32);
    assert(r == ((x % 256) * 0x100_0000 + ((x / 256) % 256) * 0x1_0000 + ((x / 0x1_0000) % 256)
        * 256 + x / 0x100_0000) as u32) by (bit_vector)
        requires
            r == (x >> 24u32) | ((x >> 8u32) & 0xff00u32) | ((x << 8u32) & 0xff_0000u32) | (x
                << 24u32),
    ;
    r
}

/// Converts a host value to its network-order native reading
/// (what `u16::to_be` computes on a host of byte order `order`).
pub fn to_network_u16(order: ByteOrder, x: u16) -> (r: u16)
    ensures
        r == spec_to_network_u16(order, x),
{
    match order {
        ByteOrder::BigEndian => x,
        ByteOrder::LittleEndian => swap16(x),
    }
}

/// Converts a host value to its network-order native reading
/// (what `u32::to_be` computes on a host of byte order `order`).
pub fn to_network_u32(order: ByteOrder, x: u32) -> (r: u32)
    ensures
        r == spec_to_network_u32(order, x),
{
    match order {
        ByteOrder::BigEndian => x,
        ByteOrder::LittleEndian => swap32(x),
    }
}

/// Converts a network-order native reading back to the host value
/// (what `u16::from_be` computes on a host of byte order `order`).
pub fn from_network_u16(order: ByteOrder, x: u16) -> (r: u16)
    ensures
        r == spec_from_network_u16(order, x),
{
    to_network_u16(order, x)
}

/// Converts a network-order native reading back to the host value
/// (what `u32::from_be` computes on a host of byte order `order`).
pub fn from_network_u32(order: ByteOrder, x: u32) -> (r: u32)
    ensures
        r == spec_from_network_u32(order, x),
{
    to_network_u32(order, x)
}

/// `u16::from_ne_bytes`: the native integer whose memory representation is
/// `[first, second]`.  Its contract states what holds on every host: the
/// bytes are read either little-endian or big-endian; which one depends on
/// the host and is left unsaid.
#[verifier::external_body]
fn native_u16_from_bytes(first: u8, second: u8) -> (r: u16)
    ensures
        r == first + 256 * second || r == 256 * first + second,
{
    u16::from_ne_bytes([first, second])
}

/// The byte order under which the bytes `[1, 0]` read as the native integer
/// `reading`: 1 is their little-endian reading, 256 their big-endian one.
pub fn byte_order_from_native_reading(reading: u16) -> (order: ByteOrder)
    requires
        reading == 1 || reading == 256,
    ensures
        reading == 1 ==> order == ByteOrder::LittleEndian,
        reading == 256 ==> order == ByteOrder::BigEndian,
{
    if reading == 1 {
        ByteOrder::LittleEndian
    } else {
        ByteOrder::BigEndian
    }
}

/// The byte order of the running host, found by reading the bytes `[1, 0]`
/// as a native integer ([`byte_order_from_native_reading`] of that reading).
/// Which order that is depends on the host, so no clause names it.
pub fn host_byte_order() -> (order: ByteOrder) {
    byte_order_from_native_reading(native_u16_from_bytes(1, 0))
}

/// Exchanging the bytes twice gives the value back.
pub proof fn lemma_swap16_involutive(x: u16)
    ensures
        spec_swap16(spec_swap16(x)) == x,
{
}

/// Reversing the bytes twice gives the value back.
pub proof fn lemma_swap32_involutive(x: u32)
    by (bit_vector)
    ensures
        spec_swap32(spec_swap32(x)) == x,
{
}

/// Law: on every host, converting a port to network order and back gives the
/// port back, so two values with equal network-order readings are equal.
pub proof fn lemma_network_u16_round_trip(order: ByteOrder, x: u16, y: u16)
    ensures
        spec_from_network_u16(order, spec_to_network_u16(order, x)) == x,
        spec_to_network_u16(order, x) == spec_to_network_u16(order, y) <==> x == y,
{
    lemma_swap16_involutive(x);
    lemma_swap16_involutive(y);
}

/// Law: on every host, converting an IPv4 address to network order and back
/// gives the address back, so the conversion is injective.
pub proof fn lemma_network_u32_round_trip(order: ByteOrder, x: u32, y: u32)
    ensures
        spec_from_network_u32(order, spec_to_network_u32(order, x)) == x,
        spec_to_network_u32(order, x) == spec_to_network_u32(order, y) <==> x == y,
{
    lemma_swap32_involutive(x);
    lemma_swap32_involutive(y);
}

} // verus!
