//! Native-endian encoding of the integers of a file header.

use vstd::prelude::*;
use vstd::bytes::{
    spec_u16_from_le_bytes, spec_u32_from_le_bytes, spec_u32_to_le_bytes, spec_u64_from_le_bytes,
    spec_u64_to_le_bytes,
};

verus! {

/// The order in which the bytes of an integer are laid out in memory.
#[derive(Clone, Copy, PartialEq, Eq, Debug)]
pub enum ByteOrder {
    Little,
    Big,
}

/// `bytes`, given least significant first, laid out in `order`.
pub open spec fn in_order(bytes: Seq<u8>, order: ByteOrder) -> Seq<u8> {
    match order {
        ByteOrder::Little => bytes,
        ByteOrder::Big => bytes.reverse(),
    }
}

/// `u16::from_ne_bytes`: reads a `u16` from its in-memory representation.
/// The contract claims only that the machine is little- or big-endian.
#[verifier::external_body]
fn u16_from_ne_bytes(bytes: [u8; 2]) -> (r: u16)
    ensures
        r == spec_u16_from_le_bytes(bytes@) || r == spec_u16_from_le_bytes(bytes@.reverse()),
{
    u16::from_ne_bytes(bytes)
}

/// The byte order shown by `probe`, the value that the machine reads from
/// the bytes `[1, 0]`: little-endian when it reads 1, big-endian otherwise.
pub fn byte_order_of_probe(probe: u16) -> (order: ByteOrder)
    ensures
        order == if probe == 1 {
            ByteOrder::Little
        } else {
            ByteOrder::Big
        },
{
    if probe == 1 {
        ByteOrder::Little
    } else {
        ByteOrder::Big
    }
}

/// The byte order of the machine the program runs on. Which order that is
/// depends on the machine; the decision on the value the machine reads is
/// `byte_order_of_probe`.
pub fn native_byte_order() -> (order: ByteOrder)
    ensures
        order == ByteOrder::Little || order == ByteOrder::Big,
{
    let probe = u16_from_ne_bytes([1u8, 0u8]);
    byte_order_of_probe(probe)
}

fn reversed(v: Vec<u8>) -> (r: Vec<u8>)
    ensures
        r@ == v@.reverse(),
{
    let mut r: Vec<u8> = Vec::new();
    let n = v.len();
    let mut i = n;
    while i > 0
        invariant
            i <= n,
            n == v@.len(),
            r@.len() == n - i,
            forall|k: int| 0 <= k < r@.len() ==> #[trigger] r@[k] == v@[n - 1 - k],
        decreases i,
    {
        i = i - 1;
        r.push(v[i]);
    }
    assert(r@ =~= v@.reverse());
    r
}

fn ordered(v: Vec<u8>, order: ByteOrder) -> (r: Vec<u8>)
    ensures
        r@ == in_order(v@, order),
{
    match order {
        ByteOrder::Little => v,
        ByteOrder::Big => reversed(v),
    }
}

/// The bytes of `x` in `order`.
pub fn u32_to_bytes(x: u32, order: ByteOrder) -> (r: Vec<u8>)
    ensures
        r@ == in_order(spec_u32_to_le_bytes(x), order),
        r@.len() == 4,
{
    proof {
        vstd::bytes::lemma_auto_spec_u32_to_from_le_bytes();
    }
    ordered(vstd::bytes::u32_to_le_bytes(x), order)
}

/// The bytes of `x` in `order`.
pub fn u64_to_bytes(x: u64, order: ByteOrder) -> (r: Vec<u8>)
    ensures
        r@ == in_order(spec_u64_to_le_bytes(x), order),
        r@.len() == 8,
{
    proof {
        vstd::bytes::lemma_auto_spec_u64_to_from_le_bytes();
    }
    ordered(vstd::bytes::u64_to_le_bytes(x), order)
}

/// The `u32` whose bytes in `order` are `bytes[at..at + 4]`.
pub fn u32_from_bytes(bytes: &[u8], at: usize, order: ByteOrder) -> (x: u32)
    requires
        at + 4 <= bytes@.len(),
    ensures
        x == spec_u32_from_le_bytes(in_order(bytes@.subrange(at as int, at + 4), order)),
{
    let mut v: Vec<u8> = Vec::new();
    let _n = bytes.len();
    let end = at + 4;
    let mut i = at;
    while i < end
        invariant
            end == at + 4,
            at <= i <= at + 4,
            at + 4 <= bytes@.len(),
            v@ == bytes@.subrange(at as int, i as int),
        decreases end - i,
    {
        v.push(bytes[i]);
        assert(v@ =~= bytes@.subrange(at as int, i + 1));
        i = i + 1;
    }
    let v = ordered(v, order);
    vstd::bytes::u32_from_le_bytes(v.as_slice())
}

/// The `u64` whose bytes in `order` are `bytes[at..at + 8]`.
pub fn u64_from_bytes(bytes: &[u8], at: usize, order: ByteOrder) -> (x: u64)
    requires
        at + 8 <= bytes@.len(),
    ensures
        x == spec_u64_from_le_bytes(in_order(bytes@.subrange(at as int, at + 8), order)),
{
    let mut v: Vec<u8> = Vec::new();
    let _n = bytes.len();
    let end = at + 8;
    let mut i = at;
    while i < end
        invariant
            end == at + 8,
            at <= i <= at + 8,
            at + 8 <= bytes@.len(),
            v@ == bytes@.subrange(at as int, i as int),
        decreases end - i,
    {
        v.push(bytes[i]);
        assert(v@ =~= bytes@.subrange(at as int, i + 1));
        i = i + 1;
    }
    let v = ordered(v, order);
    vstd::bytes::u64_from_le_bytes(v.as_slice())
}

/// Laying bytes out in either order and reading them back in the same
/// order gives the same bytes.
pub proof fn lemma_in_order_involutive(bytes: Seq<u8>, order: ByteOrder)
    ensures
        in_order(in_order(bytes, order), order) == bytes,
        in_order(bytes, order).len() == bytes.len(),
{
    match order {
        ByteOrder::Little => {},
        ByteOrder::Big => {
            assert(bytes.reverse().reverse() =~= bytes);
        },
    }
}

/// Encoding an integer in an order and decoding it in the same order gives
/// the integer back.
pub proof fn lemma_round_trip(x32: u32, x64: u64, order: ByteOrder)
    ensures
        spec_u32_from_le_bytes(in_order(in_order(spec_u32_to_le_bytes(x32), order), order))
            == x32,
        spec_u64_from_le_bytes(in_order(in_order(spec_u64_to_le_bytes(x64), order), order))
            == x64,
{
    vstd::bytes::lemma_auto_spec_u32_to_from_le_bytes();
    vstd::bytes::lemma_auto_spec_u64_to_from_le_bytes();
    lemma_in_order_involutive(spec_u32_to_le_bytes(x32), order);
    lemma_in_order_involutive(spec_u64_to_le_bytes(x64), order);
}

} // verus!
