//! Packing of a button matrix scan into bytes.
//!
//! A scan drives each output in turn and reads every input while it is
//! driven; the readings, in that order, become one bit each.
use vstd::prelude::*;

verus! {

/// Bit `i` (0 is the least significant) of `byte`.
pub open spec fn bit_of(byte: u8, i: int) -> bool {
    (byte >> (i as u8)) & 1u8 == 1u8
}

/// Bit `k` of a byte buffer: bit `k % 8` of byte `k / 8`.
pub open spec fn packed_bit(buffer: Seq<u8>, k: int) -> bool {
    bit_of(buffer[k / 8], k % 8)
}

/// `buffer` holds the first `count` readings, one bit each in scan order,
/// and every other bit of it is clear.
pub open spec fn packs_prefix(buffer: Seq<u8>, readings: Seq<bool>, count: int) -> bool {
    forall|k: int|
        0 <= k < buffer.len() * 8 ==> #[trigger] packed_bit(buffer, k) == (k < count
            && readings[k])
}

/// `buffer` holds all of `readings`, one bit each in scan order, and every
/// other bit of it is clear.
pub open spec fn packs(buffer: Seq<u8>, readings: Seq<bool>) -> bool {
    packs_prefix(buffer, readings, readings.len() as int)
}

proof fn lemma_zero_bits(i: u8)
    requires
        i < 8,
    ensures
        (0u8 >> i) & 1u8 != 1u8,
{
    assert(i < 8 ==> (0u8 >> i) & 1u8 != 1u8) by (bit_vector);
}

proof fn lemma_set_bit(b: u8, p: u8, i: u8)
    requires
        p < 8,
        i < 8,
    ensures
        (((b | (1u8 << p)) >> i) & 1u8 == 1u8) == (i == p || (b >> i) & 1u8 == 1u8),
{
    assert(p < 8 && i < 8 ==> ((((b | (1u8 << p)) >> i) & 1u8 == 1u8) == (i == p || (b >> i) & 1u8
        == 1u8))) by (bit_vector);
}

/// The packing is a function of the readings: two buffers of one length
/// that both hold the same readings are equal.
pub proof fn lemma_packs_unique(b1: Seq<u8>, b2: Seq<u8>, readings: Seq<bool>)
    requires
        b1.len() == b2.len(),
        packs(b1, readings),
        packs(b2, readings),
    ensures
        b1 == b2,
{
    assert forall|j: int| 0 <= j < b1.len() implies b1[j] == b2[j] by {
        let (x, y) = (b1[j], b2[j]);
        assert forall|i: int| 0 <= i < 8 implies bit_of(x, i) == bit_of(y, i) by {
            assert(packed_bit(b1, 8 * j + i) == packed_bit(b2, 8 * j + i));
            assert((8 * j + i) / 8 == j);
            assert((8 * j + i) % 8 == i);
        }
        assert(bit_of(x, 0) == bit_of(y, 0));
        assert(bit_of(x, 1) == bit_of(y, 1));
        assert(bit_of(x, 2) == bit_of(y, 2));
        assert(bit_of(x, 3) == bit_of(y, 3));
        assert(bit_of(x, 4) == bit_of(y, 4));
        assert(bit_of(x, 5) == bit_of(y, 5));
        assert(bit_of(x, 6) == bit_of(y, 6));
        assert(bit_of(x, 7) == bit_of(y, 7));
        assert(((x >> 0u8) & 1u8 == 1u8) == ((y >> 0u8) & 1u8 == 1u8) && ((x >> 1u8) & 1u8 == 1u8)
            == ((y >> 1u8) & 1u8 == 1u8) && ((x >> 2u8) & 1u8 == 1u8) == ((y >> 2u8) & 1u8 == 1u8)
            && ((x >> 3u8) & 1u8 == 1u8) == ((y >> 3u8) & 1u8 == 1u8) && ((x >> 4u8) & 1u8 == 1u8)
            == ((y >> 4u8) & 1u8 == 1u8) && ((x >> 5u8) & 1u8 == 1u8) == ((y >> 5u8) & 1u8 == 1u8)
            && ((x >> 6u8) & 1u8 == 1u8) == ((y >> 6u8) & 1u8 == 1u8) && ((x >> 7u8) & 1u8 == 1u8)
            == ((y >> 7u8) & 1u8 == 1u8) ==> x == y) by (bit_vector);
    }
    assert(b1 =~= b2);
}

/// Reading `8 * j + i` of a scan is the bit of value `1 << i` in byte `j`:
/// it is set exactly when that reading is high, and bits past the last
/// reading are clear.
pub proof fn lemma_packed_masks(buffer: Seq<u8>, readings: Seq<bool>)
    requires
        packs(buffer, readings),
    ensures
        forall|j: int, i: u8|
            0 <= j < buffer.len() && i < 8 ==> ((#[trigger] (buffer[j] & (1u8 << i))) != 0u8) == (8
                * j + i < readings.len() && readings[8 * j + i]),
{
    assert forall|j: int, i: u8| 0 <= j < buffer.len() && i < 8 implies ((#[trigger] (buffer[j] & (1u8
        << i))) != 0u8) == (8 * j + i < readings.len() && readings[8 * j + i]) by {
        let k = 8 * j + i;
        assert(packed_bit(buffer, k) == (k < readings.len() && readings[k]));
        assert(k / 8 == j);
        assert(k % 8 == i);
        let b = buffer[j];
        assert(i < 8 ==> (((b >> i) & 1u8 == 1u8) == ((b & (1u8 << i)) != 0u8))) by (bit_vector);
    }
}

/// Sets the bits of `result_buffer` to the `readings` of a scan, one bit
/// per reading, starting with the least significant bit of the first byte;
/// the bits that no reading covers are cleared.
///
/// The buffer must hold a bit for every reading.
pub fn scan_to_bytes(result_buffer: &mut [u8], readings: &[bool])
    requires
        readings@.len() <= old(result_buffer)@.len() * 8,
    ensures
        final(result_buffer)@.len() == old(result_buffer)@.len(),
        packs(final(result_buffer)@, readings@),
        forall|j: int, i: u8|
            0 <= j < final(result_buffer)@.len() && i < 8 ==> ((#[trigger] (final(result_buffer)@[j] & (1u8
                << i))) != 0u8) == (8 * j + i < readings@.len() && readings@[8 * j + i]),
{
    let len = result_buffer.len();
    let mut j: usize = 0;
    while j < len
        invariant
            j <= len,
            len == result_buffer@.len(),
            len == old(result_buffer)@.len(),
            forall|q: int| 0 <= q < j ==> result_buffer@[q] == 0u8,
        decreases len - j,
    {
        result_buffer[j] = 0;
        j += 1;
    }
    assert forall|k: int| 0 <= k < result_buffer@.len() * 8 implies #[trigger] packed_bit(
        result_buffer@,
        k,
    ) == (k < 0 && readings@[k]) by {
        lemma_zero_bits((k % 8) as u8);
    }

    let n = readings.len();
    let mut buff_index: usize = 0;
    let mut buff_offset: u8 = 0;
    let mut k: usize = 0;
    while k < n
        invariant
            k <= n,
            n == readings@.len(),
            n <= len * 8,
            len == result_buffer@.len(),
            len == old(result_buffer)@.len(),
            buff_index == k / 8,
            buff_offset == k % 8,
            packs_prefix(result_buffer@, readings@, k as int),
        decreases n - k,
    {
        let ghost before = result_buffer@;
        if readings[k] {
            result_buffer[buff_index] = result_buffer[buff_index] | (1u8 << buff_offset);
        }
        assert forall|q: int| 0 <= q < result_buffer@.len() * 8 implies #[trigger] packed_bit(
            result_buffer@,
            q,
        ) == (q < k + 1 && readings@[q]) by {
            assert(packed_bit(before, q) == (q < k && readings@[q]));
            if readings@[k as int] && q / 8 == k / 8 {
                lemma_set_bit(before[q / 8], buff_offset, (q % 8) as u8);
            }
        }
        buff_offset += 1;
        if buff_offset > 7 {
            buff_offset = 0;
            buff_index += 1;
        }
        k += 1;
    }
    proof {
        lemma_packed_masks(result_buffer@, readings@);
    }
}

} // verus!
