//! Network byte order.

use vstd::endian::{endianness, Endian};
use vstd::prelude::*;

verus! {

/// The integer whose four bytes are those of `x` in the opposite order.
pub open spec fn swap_bytes(x: u32) -> u32 {
    ((x & 0x0000_00ff) << 24) | ((x & 0x0000_ff00) << 8) | ((x & 0x00ff_0000) >> 8) | ((x
        & 0xff00_0000) >> 24)
}

/// What a big-endian integer is on the machine that runs the program:
/// itself where the machine is big-endian, byte-swapped where it is
/// little-endian.
pub open spec fn host_order(x: u32) -> u32 {
    match endianness() {
        Endian::Big => x,
        Endian::Little => swap_bytes(x),
    }
}

/// `u32::from_be` of the standard library. Its documentation says that the
/// call does nothing on a big-endian target and swaps the bytes on a
/// little-endian one; this is assumed, not proved.
pub assume_specification[ u32::from_be ](x: u32) -> (r: u32)
    ensures
        r == host_order(x),
;

/// Converts an integer from network byte order to the host's.
pub fn ntoh(x: u32) -> (r: u32)
    ensures
        r == host_order(x),
{
    u32::from_be(x)
}

/// The integer made of four bytes, the first of them the highest.
pub open spec fn big_endian(b0: u8, b1: u8, b2: u8, b3: u8) -> u32 {
    ((b0 as u32) << 24) | ((b1 as u32) << 16) | ((b2 as u32) << 8) | (b3 as u32)
}

/// The integer that a machine of the running kind reads from four bytes
/// that lie in its memory in this order.
pub open spec fn in_memory(b0: u8, b1: u8, b2: u8, b3: u8) -> u32 {
    match endianness() {
        Endian::Big => big_endian(b0, b1, b2, b3),
        Endian::Little => big_endian(b3, b2, b1, b0),
    }
}

/// Swapping the bytes twice gives the integer back.
pub proof fn lemma_swap_bytes_involutive(x: u32)
    ensures
        swap_bytes(swap_bytes(x)) == x,
{
    assert(swap_bytes(swap_bytes(x)) == x) by (bit_vector);
}

/// Converting twice gives the integer back, on either kind of machine.
pub proof fn lemma_ntoh_involutive(x: u32)
    ensures
        host_order(host_order(x)) == x,
{
    lemma_swap_bytes_involutive(x);
}

/// Four bytes that arrived in network order read, in host order, as the
/// integer whose highest byte came first, on either kind of machine.
pub proof fn lemma_host_order_of_network_bytes(b0: u8, b1: u8, b2: u8, b3: u8)
    ensures
        host_order(in_memory(b0, b1, b2, b3)) == big_endian(b0, b1, b2, b3),
{
    assert(swap_bytes(big_endian(b3, b2, b1, b0)) == big_endian(b0, b1, b2, b3)) by (bit_vector);
}

} // verus!
