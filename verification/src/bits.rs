//! Single bits of a byte array, numbered from the least significant bit of
//! the first byte upwards.

use bitvec::order::Lsb0;
use bitvec::view::BitView;
use vstd::prelude::*;

verus! {

/// Whether bit `index` of `bytes` is set: bit `index % 8`, counted from the
/// least significant, of byte `index / 8`.
pub open spec fn bit_of(bytes: Seq<u8>, index: int) -> bool {
    (bytes[index / 8] >> ((index % 8) as u8)) & 1u8 == 1u8
}

/// Reads one bit of a symbol mask.
///
/// Trusted: `bitvec`'s `view_bits::<Lsb0>()` followed by indexing. The
/// contract claims that the least-significant-first view numbers the bits
/// as [`bit_of`] does.
#[verifier::external_body]
pub(crate) fn mask_bit(mask: &[u8; 6], index: usize) -> (bit: bool)
    requires
        index < 48,
    ensures
        bit == bit_of(mask@, index as int),
{
    mask.view_bits::<Lsb0>()[index]
}

/// Clears one bit of an on/off block.
///
/// Trusted: `bitvec`'s `view_bits_mut::<Lsb0>()` followed by
/// `BitSlice::set(index, false)`. The contract claims that exactly the bit
/// that [`bit_of`] numbers `index` becomes 0 and every other bit keeps its
/// value.
#[verifier::external_body]
pub(crate) fn clear_bit(block: &mut [u8; 18], index: usize)
    requires
        index < 144,
    ensures
        forall|i: int|
            0 <= i < 144 ==> #[trigger] bit_of(final(block)@, i) == (i != index && bit_of(
                old(block)@,
                i,
            )),
{
    block.view_bits_mut::<Lsb0>().set(index, false);
}

/// The byte with a 1 at position `position` if `on`, and 0 elsewhere.
pub open spec fn bit_value(on: bool, position: u8) -> u8 {
    if on {
        1u8 << position
    } else {
        0u8
    }
}

/// The byte whose bits, least significant first, are `b0` to `b7`.
pub open spec fn pack(
    b0: bool,
    b1: bool,
    b2: bool,
    b3: bool,
    b4: bool,
    b5: bool,
    b6: bool,
    b7: bool,
) -> u8 {
    bit_value(b0, 0) | bit_value(b1, 1) | bit_value(b2, 2) | bit_value(b3, 3) | bit_value(b4, 4)
        | bit_value(b5, 5) | bit_value(b6, 6) | bit_value(b7, 7)
}

/// Each bit of a packed byte is the one that was put there.
pub proof fn lemma_pack_bits(
    b0: bool,
    b1: bool,
    b2: bool,
    b3: bool,
    b4: bool,
    b5: bool,
    b6: bool,
    b7: bool,
)
    ensures
        ({
            let byte = pack(b0, b1, b2, b3, b4, b5, b6, b7);
            &&& ((byte >> 0u8) & 1u8 == 1u8) == b0
            &&& ((byte >> 1u8) & 1u8 == 1u8) == b1
            &&& ((byte >> 2u8) & 1u8 == 1u8) == b2
            &&& ((byte >> 3u8) & 1u8 == 1u8) == b3
            &&& ((byte >> 4u8) & 1u8 == 1u8) == b4
            &&& ((byte >> 5u8) & 1u8 == 1u8) == b5
            &&& ((byte >> 6u8) & 1u8 == 1u8) == b6
            &&& ((byte >> 7u8) & 1u8 == 1u8) == b7
        }),
{
    let v0 = bit_value(b0, 0);
    let v1 = bit_value(b1, 1);
    let v2 = bit_value(b2, 2);
    let v3 = bit_value(b3, 3);
    let v4 = bit_value(b4, 4);
    let v5 = bit_value(b5, 5);
    let v6 = bit_value(b6, 6);
    let v7 = bit_value(b7, 7);
    let byte = v0 | v1 | v2 | v3 | v4 | v5 | v6 | v7;
    assert(1u8 << 0u8 == 1u8 && 1u8 << 1u8 == 2u8 && 1u8 << 2u8 == 4u8 && 1u8 << 3u8 == 8u8 && 1u8
        << 4u8 == 16u8 && 1u8 << 5u8 == 32u8 && 1u8 << 6u8 == 64u8 && 1u8 << 7u8 == 128u8)
        by (bit_vector);
    assert({
        &&& ((byte >> 0u8) & 1u8 == 1u8) == (v0 != 0u8)
        &&& ((byte >> 1u8) & 1u8 == 1u8) == (v1 != 0u8)
        &&& ((byte >> 2u8) & 1u8 == 1u8) == (v2 != 0u8)
        &&& ((byte >> 3u8) & 1u8 == 1u8) == (v3 != 0u8)
        &&& ((byte >> 4u8) & 1u8 == 1u8) == (v4 != 0u8)
        &&& ((byte >> 5u8) & 1u8 == 1u8) == (v5 != 0u8)
        &&& ((byte >> 6u8) & 1u8 == 1u8) == (v6 != 0u8)
        &&& ((byte >> 7u8) & 1u8 == 1u8) == (v7 != 0u8)
    }) by (bit_vector)
        requires
            byte == v0 | v1 | v2 | v3 | v4 | v5 | v6 | v7,
            v0 == 0u8 || v0 == 1u8,
            v1 == 0u8 || v1 == 2u8,
            v2 == 0u8 || v2 == 4u8,
            v3 == 0u8 || v3 == 8u8,
            v4 == 0u8 || v4 == 16u8,
            v5 == 0u8 || v5 == 32u8,
            v6 == 0u8 || v6 == 64u8,
            v7 == 0u8 || v7 == 128u8,
    ;
}

/// A byte is what its eight bits are.
pub proof fn lemma_byte_from_bits(x: u8, y: u8)
    requires
        forall|p: u8| 0 <= p < 8 ==> ((x >> p) & 1u8 == 1u8) == ((y >> p) & 1u8 == 1u8),
    ensures
        x == y,
{
    assert(((x >> 0u8) & 1u8 == 1u8) == ((y >> 0u8) & 1u8 == 1u8));
    assert(((x >> 1u8) & 1u8 == 1u8) == ((y >> 1u8) & 1u8 == 1u8));
    assert(((x >> 2u8) & 1u8 == 1u8) == ((y >> 2u8) & 1u8 == 1u8));
    assert(((x >> 3u8) & 1u8 == 1u8) == ((y >> 3u8) & 1u8 == 1u8));
    assert(((x >> 4u8) & 1u8 == 1u8) == ((y >> 4u8) & 1u8 == 1u8));
    assert(((x >> 5u8) & 1u8 == 1u8) == ((y >> 5u8) & 1u8 == 1u8));
    assert(((x >> 6u8) & 1u8 == 1u8) == ((y >> 6u8) & 1u8 == 1u8));
    assert(((x >> 7u8) & 1u8 == 1u8) == ((y >> 7u8) & 1u8 == 1u8));
    assert(x == y) by (bit_vector)
        requires
            ((x >> 0u8) & 1u8 == 1u8) == ((y >> 0u8) & 1u8 == 1u8),
            ((x >> 1u8) & 1u8 == 1u8) == ((y >> 1u8) & 1u8 == 1u8),
            ((x >> 2u8) & 1u8 == 1u8) == ((y >> 2u8) & 1u8 == 1u8),
            ((x >> 3u8) & 1u8 == 1u8) == ((y >> 3u8) & 1u8 == 1u8),
            ((x >> 4u8) & 1u8 == 1u8) == ((y >> 4u8) & 1u8 == 1u8),
            ((x >> 5u8) & 1u8 == 1u8) == ((y >> 5u8) & 1u8 == 1u8),
            ((x >> 6u8) & 1u8 == 1u8) == ((y >> 6u8) & 1u8 == 1u8),
            ((x >> 7u8) & 1u8 == 1u8) == ((y >> 7u8) & 1u8 == 1u8),
    ;
}

/// Two byte arrays of one length with the same bits are the same bytes.
pub proof fn lemma_bits_determine_bytes(a: Seq<u8>, b: Seq<u8>)
    requires
        a.len() == b.len(),
        forall|i: int| 0 <= i < 8 * a.len() ==> bit_of(a, i) == bit_of(b, i),
    ensures
        a == b,
{
    assert forall|k: int| 0 <= k < a.len() implies a[k] == b[k] by {
        assert forall|p: u8| 0 <= p < 8 implies ((a[k] >> p) & 1u8 == 1u8) == ((b[k] >> p) & 1u8
            == 1u8) by {
            let i = 8 * k + p;
            assert(i / 8 == k && i % 8 == p);
            assert(bit_of(a, i) == bit_of(b, i));
        }
        lemma_byte_from_bits(a[k], b[k]);
    }
    assert(a =~= b);
}

} // verus!
