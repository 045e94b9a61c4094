//! Inclusive bit-range operations on 32-bit words.
use vstd::prelude::*;

verus! {

/// Whether bit `i` (counted from the least significant bit) of `w` is one.
pub open spec fn bit_set(w: u32, i: u32) -> bool {
    (w >> i) & 1u32 == 1u32
}

/// The word whose `n` lowest bits are one and the others zero.
pub open spec fn low_ones(n: u32) -> u32 {
    if n >= 32 {
        0xffff_ffffu32
    } else {
        ((1u32 << n) - 1u32) as u32
    }
}

/// The word whose bits `start..=end` are one and the others zero.
pub open spec fn range_mask(start: u32, end: u32) -> u32 {
    low_ones((end + 1 - start) as u32) << start
}

/// Bits `start..=end` of `w`, moved down to bit 0.
pub open spec fn digits(w: u32, start: u32, end: u32) -> u32 {
    (w >> start) & low_ones((end + 1 - start) as u32)
}

/// `w` with bits `start..=end` forced to one.
pub open spec fn ones_in(w: u32, start: u32, end: u32) -> u32 {
    w | range_mask(start, end)
}

/// `w` with bits `start..=end` forced to zero.
pub open spec fn zeros_in(w: u32, start: u32, end: u32) -> u32 {
    w & !range_mask(start, end)
}

/// A valid inclusive bit range of a 32-bit word.
pub open spec fn valid_range(start: u32, end: u32) -> bool {
    start <= end && end <= 31
}

/// Gets bits `start..=end` of `number`, right-aligned.
pub fn get_digits(number: u32, start: u32, end: u32) -> (r: u32)
    requires
        valid_range(start, end),
    ensures
        r == digits(number, start, end),
        start == 0 && end == 31 ==> r == number,
        forall|i: u32| i < 32 ==> #[trigger] bit_set(r, i) == (i <= end - start && bit_set(number, (start + i) as u32)),
{
    proof {
        lemma_digits_bits(number, start, end);
    }
    let len: u32 = end - start + 1;
    let mask: u32;
    if len < 32 {
        assert(1u32 << len >= 1u32) by (bit_vector)
            requires
                len < 32,
        ;
        mask = ((1u32 << len) - 1) << start;
    } else {
        mask = u32::MAX;
    }
    let r = (number & mask) >> start;
    assert(r == digits(number, start, end)) by (bit_vector)
        requires
            start <= end && end <= 31,
            len == end - start + 1,
            len < 32 ==> mask == (((1u32 << len) - 1u32) as u32) << start,
            len >= 32 ==> mask == 0xffff_ffffu32,
            r == (number & mask) >> start,
    ;
    assert(start == 0 && end == 31 ==> digits(number, start, end) == number) by (bit_vector);
    r
}

/// Forces bits `start..=end` of `number` to one; the other bits are kept.
pub fn set_one_digits(number: u32, start: u32, end: u32) -> (r: u32)
    requires
        valid_range(start, end),
    ensures
        r == ones_in(number, start, end),
        forall|i: u32| i < 32 ==> #[trigger] bit_set(r, i) == ((start <= i && i <= end) || bit_set(number, i)),
{
    proof {
        lemma_ones_in_bits(number, start, end);
    }
    let len: u32 = end - start + 1;
    if len < 32 {
        assert(1u32 << len >= 1u32) by (bit_vector)
            requires
                len < 32,
        ;
        let r = (((1u32 << len) - 1) << start) | number;
        assert(r == ones_in(number, start, end)) by (bit_vector)
            requires
                start <= end && end <= 31,
                len == end - start + 1,
                len < 32,
                r == ((((1u32 << len) - 1u32) as u32) << start) | number,
        ;
        r
    } else {
        assert(ones_in(number, start, end) == u32::MAX) by (bit_vector)
            requires
                start <= end && end <= 31,
                end - start + 1 >= 32,
        ;
        u32::MAX
    }
}

/// Forces bits `start..=end` of `number` to zero; the other bits are kept.
pub fn set_zero_digits(number: u32, start: u32, end: u32) -> (r: u32)
    requires
        valid_range(start, end),
    ensures
        r == zeros_in(number, start, end),
        forall|i: u32| i < 32 ==> #[trigger] bit_set(r, i) == (!(start <= i && i <= end) && bit_set(number, i)),
{
    proof {
        lemma_zeros_in_bits(number, start, end);
    }
    let len: u32 = end - start + 1;
    if len < 32 {
        assert(1u32 << len >= 1u32 && ((1u32 << len) - 1u32) as u32 <= u32::MAX >> start) by (bit_vector)
            requires
                len < 32,
                start + len <= 32,
        ;
        let mask: u32 = ((1u32 << len) - 1) << start;
        let r = (u32::MAX - mask) & number;
        assert(r == zeros_in(number, start, end)) by (bit_vector)
            requires
                start <= end && end <= 31,
                len == end - start + 1,
                len < 32,
                mask == (((1u32 << len) - 1u32) as u32) << start,
                r == ((0xffff_ffffu32 - mask) as u32) & number,
        ;
        r
    } else {
        assert(zeros_in(number, start, end) == 0) by (bit_vector)
            requires
                start <= end && end <= 31,
                end - start + 1 >= 32,
        ;
        0
    }
}

/// The bits of `ones_in(w, start, end)`: one inside the range, those of `w` outside it.
pub proof fn lemma_ones_in_bits(w: u32, start: u32, end: u32)
    requires
        valid_range(start, end),
    ensures
        forall|i: u32| i < 32 ==> #[trigger] bit_set(ones_in(w, start, end), i) == ((start <= i && i <= end) || bit_set(w, i)),
{
    assert forall|i: u32| i < 32 implies #[trigger] bit_set(ones_in(w, start, end), i) == ((start <= i && i <= end) || bit_set(w, i)) by {
        assert(bit_set(ones_in(w, start, end), i) == ((start <= i && i <= end) || bit_set(w, i))) by (bit_vector)
            requires
                start <= end && end <= 31 && i < 32,
        ;
    }
}

/// The bits of `zeros_in(w, start, end)`: zero inside the range, those of `w` outside it.
pub proof fn lemma_zeros_in_bits(w: u32, start: u32, end: u32)
    requires
        valid_range(start, end),
    ensures
        forall|i: u32| i < 32 ==> #[trigger] bit_set(zeros_in(w, start, end), i) == (!(start <= i && i <= end) && bit_set(w, i)),
{
    assert forall|i: u32| i < 32 implies #[trigger] bit_set(zeros_in(w, start, end), i) == (!(start <= i && i <= end) && bit_set(w, i)) by {
        assert(bit_set(zeros_in(w, start, end), i) == (!(start <= i && i <= end) && bit_set(w, i))) by (bit_vector)
            requires
                start <= end && end <= 31 && i < 32,
        ;
    }
}

/// Forcing a range to one twice gives what forcing it once gives, and likewise for zero.
pub proof fn lemma_fill_idempotent(w: u32, start: u32, end: u32)
    requires
        valid_range(start, end),
    ensures
        ones_in(ones_in(w, start, end), start, end) == ones_in(w, start, end),
        zeros_in(zeros_in(w, start, end), start, end) == zeros_in(w, start, end),
{
    assert(ones_in(ones_in(w, start, end), start, end) == ones_in(w, start, end)) by (bit_vector);
    assert(zeros_in(zeros_in(w, start, end), start, end) == zeros_in(w, start, end)) by (bit_vector);
}

/// The bits of `digits(w, start, end)`: bit `i` is bit `start + i` of `w` within the range, zero above it.
pub proof fn lemma_digits_bits(w: u32, start: u32, end: u32)
    requires
        valid_range(start, end),
    ensures
        forall|i: u32| i < 32 ==> #[trigger] bit_set(digits(w, start, end), i) == (i <= end - start && bit_set(w, (start + i) as u32)),
{
    assert forall|i: u32| i < 32 implies #[trigger] bit_set(digits(w, start, end), i) == (i <= end - start && bit_set(w, (start + i) as u32)) by {
        assert(bit_set(digits(w, start, end), i) == (i <= end - start && bit_set(w, (start + i) as u32))) by (bit_vector)
            requires
                start <= end && end <= 31 && i < 32,
        ;
    }
}

} // verus!
