//! Bit and field access on 32-bit register images.
use vstd::arithmetic::power2::pow2;
use vstd::prelude::*;

verus! {

/// Bit `i` of `x`.
pub open spec fn bit(x: u32, i: u32) -> bool {
    (x >> i) & 1 == 1
}

/// `x` with bit `i` set to `v`.
pub open spec fn set_bit(x: u32, i: u32, v: bool) -> u32 {
    if v {
        x | (1u32 << i)
    } else {
        x & !(1u32 << i)
    }
}

/// The low `width` bits set.
pub open spec fn low_mask(width: u32) -> u32 {
    if width >= 32 {
        0xffff_ffffu32
    } else {
        (((1u32 << width) - 1) as u32)
    }
}

/// The `width` bits of `x` that start at bit `lo`.
pub open spec fn field(x: u32, lo: u32, width: u32) -> u32 {
    (x >> lo) & low_mask(width)
}

/// `x` with the `width` bits at `lo` replaced by `v`.
pub open spec fn set_field(x: u32, lo: u32, width: u32, v: u32) -> u32 {
    (x & !(low_mask(width) << lo)) | ((v & low_mask(width)) << lo)
}

pub fn get_bit(x: u32, i: u32) -> (r: bool)
    requires
        i < 32,
    ensures
        r == bit(x, i),
{
    (x >> i) & 1 == 1
}

pub fn with_bit(x: u32, i: u32, v: bool) -> (r: u32)
    requires
        i < 32,
    ensures
        r == set_bit(x, i, v),
{
    if v {
        x | (1u32 << i)
    } else {
        x & !(1u32 << i)
    }
}

fn mask_of(width: u32) -> (r: u32)
    requires
        width < 32,
    ensures
        r == low_mask(width),
{
    proof {
        lemma_one_shifted_is_positive(width);
    }
    (1u32 << width) - 1
}

pub fn get_field(x: u32, lo: u32, width: u32) -> (r: u32)
    requires
        lo < 32,
        width < 32,
    ensures
        r == field(x, lo, width),
{
    (x >> lo) & mask_of(width)
}

pub fn with_field(x: u32, lo: u32, width: u32, v: u32) -> (r: u32)
    requires
        lo < 32,
        width < 32,
    ensures
        r == set_field(x, lo, width, v),
{
    (x & !(mask_of(width) << lo)) | ((v & mask_of(width)) << lo)
}

proof fn lemma_one_shifted_is_positive(width: u32)
    by (bit_vector)
    requires
        width < 32,
    ensures
        (1u32 << width) >= 1,
{
}

/// A bit is the digit of its place value in binary, and a field the number that its digits make.
pub proof fn bits_are_binary_digits(x: u32, lo: u32, width: u32)
    requires
        lo < 32,
        width < 32,
    ensures
        bit(x, lo) == ((x as int / pow2(lo as nat) as int) % 2 == 1),
        field(x, lo, width) == (x as int / pow2(lo as nat) as int) % (pow2(width as nat) as int),
        low_mask(width) == pow2(width as nat) - 1,
{
    let y = x >> lo;
    vstd::bits::lemma_u32_shr_is_div(x, lo);
    assert((y & 1u32 == 1) == (y % 2 == 1)) by (bit_vector);
    lemma_low_mask_is_ones(width);
    vstd::bits::lemma_u32_low_bits_mask_is_mod(y, width as nat);
}

proof fn lemma_low_mask_is_ones(width: u32)
    requires
        width < 32,
    ensures
        low_mask(width) == pow2(width as nat) - 1,
        low_mask(width) == vstd::bits::low_bits_mask(width as nat),
        pow2(width as nat) <= u32::MAX,
{
    vstd::arithmetic::power2::lemma2_to64();
    vstd::arithmetic::power2::lemma_pow2_strictly_increases(width as nat, 32);
    vstd::arithmetic::power2::lemma_pow2_pos(width as nat);
    vstd::bits::lemma_u32_shl_is_mul(1, width);
}

/// Writing a bit reads back as written and leaves every other bit as it was.
pub proof fn set_bit_changes_one_bit(x: u32, i: u32, v: bool, j: u32)
    by (bit_vector)
    requires
        i < 32,
        j < 32,
    ensures
        bit(set_bit(x, i, v), j) == (if i == j {
            v
        } else {
            bit(x, j)
        }),
{
}

/// Writing a field reads back as written, reduced to the width of the field.
pub proof fn set_field_reads_back(x: u32, lo: u32, width: u32, v: u32)
    by (bit_vector)
    requires
        lo < 32,
        width < 32,
        lo + width <= 32,
    ensures
        field(set_field(x, lo, width, v), lo, width) == v & low_mask(width),
{
}

/// Writing a field leaves every bit outside of it as it was.
pub proof fn set_field_keeps_other_bits(x: u32, lo: u32, width: u32, v: u32, j: u32)
    by (bit_vector)
    requires
        lo < 32,
        width < 32,
        lo + width <= 32,
        j < 32,
        j < lo || j >= lo + width,
    ensures
        bit(set_field(x, lo, width, v), j) == bit(x, j),
{
}

/// A field is below two to the power of its width.
pub proof fn field_fits(x: u32, lo: u32, width: u32)
    by (bit_vector)
    requires
        lo < 32,
        width < 32,
    ensures
        field(x, lo, width) < (1u32 << width),
        width <= 8 ==> field(x, lo, width) <= 0xff,
        width <= 16 ==> field(x, lo, width) <= 0xffff,
{
}

/// Distinct bit positions give distinct single-bit masks, and every one is non-zero.
pub proof fn single_bit_masks_are_distinct(i: u32, j: u32)
    by (bit_vector)
    requires
        i < 32,
        j < 32,
    ensures
        i != j ==> (1u32 << i) != (1u32 << j),
        ((1u32 << i) & (1u32 << j) == 0) == (i != j),
        (1u32 << i) != 0,
{
}

/// Merging a mask with or sets exactly the bits of the mask.
pub proof fn or_sets_the_mask_bits(x: u32, mask: u32, j: u32)
    by (bit_vector)
    requires
        j < 32,
    ensures
        bit(x | mask, j) == (bit(x, j) || bit(mask, j)),
        bit(x & mask, j) == (bit(x, j) && bit(mask, j)),
        bit(x & !mask, j) == (bit(x, j) && !bit(mask, j)),
{
}

} // verus!
