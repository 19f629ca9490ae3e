//! Byte images of 16-bit and 32-bit values.
//!
//! Buffers handed to the GPU are little-endian whatever the host is. The
//! values are first brought into little-endian order with `to_le`, and their
//! memory is then reinterpreted as bytes.

use vstd::prelude::*;
use vstd::endian::Endian;
use vstd::endian::endianness;

verus! {

/// The two bytes of `x`, least significant first.
pub open spec fn u16_le(x: u16) -> Seq<u8> {
    seq![(x % 256) as u8, (x / 256) as u8]
}

/// The four bytes of `x`, least significant first.
pub open spec fn u32_le(x: u32) -> Seq<u8> {
    seq![
        (x % 256) as u8,
        ((x / 256) % 256) as u8,
        ((x / 65536) % 256) as u8,
        (x / 16777216) as u8,
    ]
}

/// The bytes of `x` as a host of byte order `order` keeps them in memory.
pub open spec fn u16_in(order: Endian, x: u16) -> Seq<u8> {
    match order {
        Endian::Little => u16_le(x),
        Endian::Big => u16_le(x).reverse(),
    }
}

/// The bytes of `x` as a host of byte order `order` keeps them in memory.
pub open spec fn u32_in(order: Endian, x: u32) -> Seq<u8> {
    match order {
        Endian::Little => u32_le(x),
        Endian::Big => u32_le(x).reverse(),
    }
}

/// `x` with its two bytes exchanged.
pub open spec fn u16_swapped(x: u16) -> u16 {
    ((x % 256) * 256 + x / 256) as u16
}

/// `x` with its four bytes in reverse order.
pub open spec fn u32_swapped(x: u32) -> u32 {
    ((x % 256) * 16777216 + ((x / 256) % 256) * 65536 + ((x / 65536) % 256) * 256 + x
        / 16777216) as u32
}

/// The memory image of `values` on a host of byte order `order`: two bytes
/// per value, values in sequence order.
pub open spec fn halfwords_in(order: Endian, values: Seq<u16>) -> Seq<u8> {
    Seq::new(2 * values.len(), |i: int| u16_in(order, values[i / 2])[i % 2])
}

/// The memory image of `values` on a host of byte order `order`: four bytes
/// per value, values in sequence order.
pub open spec fn words_in(order: Endian, values: Seq<u32>) -> Seq<u8> {
    Seq::new(4 * values.len(), |i: int| u32_in(order, values[i / 4])[i % 4])
}

/// The little-endian image of `values`.
pub open spec fn halfwords_le(values: Seq<u16>) -> Seq<u8> {
    halfwords_in(Endian::Little, values)
}

/// The little-endian image of `values`.
pub open spec fn words_le(values: Seq<u32>) -> Seq<u8> {
    words_in(Endian::Little, values)
}

/// `u16::to_le`: the value itself on a little-endian host, the value with
/// its bytes exchanged on a big-endian one.
pub assume_specification[ u16::to_le ](x: u16) -> (r: u16)
    ensures
        r == match endianness() {
            Endian::Little => x,
            Endian::Big => u16_swapped(x),
        },
;

/// `u32::to_le`: the value itself on a little-endian host, the value with
/// its bytes reversed on a big-endian one.
pub assume_specification[ u32::to_le ](x: u32) -> (r: u32)
    ensures
        r == match endianness() {
            Endian::Little => x,
            Endian::Big => u32_swapped(x),
        },
;

/// `bytemuck::cast_slice` from `u16` to `u8`: the same memory read as bytes,
/// so each value shows as its two bytes in the host's order. The cast to
/// bytes cannot fail: bytes need no alignment and any length is whole.
#[verifier::external_body]
fn cast_halfwords(values: &Vec<u16>) -> (r: Vec<u8>)
    ensures
        r@ == halfwords_in(endianness(), values@),
{
    bytemuck::cast_slice::<u16, u8>(values.as_slice()).to_vec()
}

/// `bytemuck::cast_slice` from `u32` to `u8`: the same memory read as bytes,
/// so each value shows as its four bytes in the host's order. The cast to
/// bytes cannot fail: bytes need no alignment and any length is whole.
#[verifier::external_body]
fn cast_words(values: &Vec<u32>) -> (r: Vec<u8>)
    ensures
        r@ == words_in(endianness(), values@),
{
    bytemuck::cast_slice::<u32, u8>(values.as_slice()).to_vec()
}

/// Storing the byte-exchanged value in the other order gives the same bytes.
pub proof fn lemma_u16_swapped_image(x: u16)
    ensures
        u16_in(Endian::Big, u16_swapped(x)) == u16_le(x),
{
    let y = u16_swapped(x);
    assert(y / 256 == x % 256);
    assert(y % 256 == x / 256);
    assert(u16_le(y).reverse() =~= u16_le(x));
}

/// Storing the byte-reversed value in the other order gives the same bytes.
pub proof fn lemma_u32_swapped_image(x: u32)
    ensures
        u32_in(Endian::Big, u32_swapped(x)) == u32_le(x),
{
    let y = u32_swapped(x);
    assert(y / 16777216 == x % 256);
    assert((y / 65536) % 256 == (x / 256) % 256);
    assert((y / 256) % 256 == (x / 65536) % 256);
    assert(y % 256 == x / 16777216);
    assert(u32_le(y).reverse() =~= u32_le(x));
}

/// The image of two sequences in a row is the image of the first followed by
/// the image of the second.
pub proof fn lemma_words_in_concat(order: Endian, a: Seq<u32>, b: Seq<u32>)
    ensures
        words_in(order, a + b) == words_in(order, a) + words_in(order, b),
{
    let whole = words_in(order, a + b);
    let parts = words_in(order, a) + words_in(order, b);
    assert forall|i: int| 0 <= i < whole.len() implies whole[i] == parts[i] by {
        if i >= 4 * a.len() {
            assert((i - 4 * a.len()) / 4 == i / 4 - a.len());
            assert((i - 4 * a.len()) % 4 == i % 4);
        }
    }
    assert(whole =~= parts);
}

/// The little-endian bytes of `values`, two per value.
pub fn halfwords_to_le_bytes(values: &Vec<u16>) -> (r: Vec<u8>)
    ensures
        r@ == halfwords_le(values@),
{
    let mut ordered: Vec<u16> = Vec::new();
    let mut i: usize = 0;
    while i < values.len()
        invariant
            i <= values.len(),
            ordered.len() == i,
            forall|j: int|
                0 <= j < i ==> u16_in(endianness(), #[trigger] ordered@[j]) == u16_le(values@[j]),
        decreases values.len() - i,
    {
        let x: u16 = values[i];
        proof {
            lemma_u16_swapped_image(x);
        }
        ordered.push(x.to_le());
        i += 1;
    }
    let bytes = cast_halfwords(&ordered);
    assert(bytes@ =~= halfwords_le(values@));
    bytes
}

/// The little-endian bytes of `values`, four per value.
pub fn words_to_le_bytes(values: &Vec<u32>) -> (r: Vec<u8>)
    ensures
        r@ == words_le(values@),
{
    let mut ordered: Vec<u32> = Vec::new();
    let mut i: usize = 0;
    while i < values.len()
        invariant
            i <= values.len(),
            ordered.len() == i,
            forall|j: int|
                0 <= j < i ==> u32_in(endianness(), #[trigger] ordered@[j]) == u32_le(values@[j]),
        decreases values.len() - i,
    {
        let x: u32 = values[i];
        proof {
            lemma_u32_swapped_image(x);
        }
        ordered.push(x.to_le());
        i += 1;
    }
    let bytes = cast_words(&ordered);
    assert(bytes@ =~= words_le(values@));
    bytes
}

} // verus!
