//! Integer helpers with exact specifications, for the address and size arithmetic of the
//! kernel objects.
use vstd::prelude::*;
use vstd::arithmetic::power2::pow2;
use vstd::bits::{low_bits_mask, lemma_usize_low_bits_mask_is_mod, lemma_usize_shl_is_mul,
    lemma_usize_pow2_no_overflow};

verus! {

/// `x` is a power of two that a `usize` can hold.
pub open spec fn is_pow2(x: usize) -> bool {
    exists|n: nat| n < usize::BITS && x == pow2(n)
}

/// For a power-of-two `align`, masking with `align - 1` keeps the remainder and masking with
/// its complement keeps the aligned-down value.
pub proof fn lemma_align_masks(x: usize, align: usize)
    requires
        is_pow2(align),
    ensures
        align > 0,
        x & ((align - 1) as usize) == x % align,
        x & !((align - 1) as usize) == x - x % align,
{
    let n = choose|n: nat| n < usize::BITS && align == pow2(n);
    lemma_usize_pow2_no_overflow(n);
    lemma_usize_low_bits_mask_is_mod(x, n);
    assert(low_bits_mask(n) == align - 1);
    let m = (align - 1) as usize;
    assert(x & !m == (x - (x & m)) as usize) by (bit_vector);
    assert(x & m <= x) by (bit_vector);
}

pub open spec fn max_spec(a: int, b: int) -> int {
    if a >= b {
        a
    } else {
        b
    }
}

pub open spec fn min_spec(a: int, b: int) -> int {
    if a <= b {
        a
    } else {
        b
    }
}

pub fn is_power_of_two(x: usize) -> (r: bool)
    ensures
        r == is_pow2(x),
{
    let mut shift: usize = 0;
    while shift < usize::BITS as usize
        invariant
            shift <= usize::BITS,
            forall|n: nat| n < shift ==> x != pow2(n),
        decreases usize::BITS - shift,
    {
        proof {
            lemma_usize_pow2_no_overflow(shift as nat);
            lemma_usize_shl_is_mul(1, shift);
        }
        if x == 1usize << shift {
            return true;
        }
        shift += 1;
    }
    false
}

pub fn max_usize(a: usize, b: usize) -> (r: usize)
    ensures
        r == max_spec(a as int, b as int),
{
    if a >= b {
        a
    } else {
        b
    }
}

pub fn min_usize(a: usize, b: usize) -> (r: usize)
    ensures
        r == min_spec(a as int, b as int),
{
    if a <= b {
        a
    } else {
        b
    }
}

/// The product, or `usize::MAX` where it does not fit.
pub open spec fn saturating_mul_spec(a: usize, b: usize) -> usize {
    if a * b > usize::MAX {
        usize::MAX
    } else {
        (a * b) as usize
    }
}

pub fn saturating_mul(a: usize, b: usize) -> (r: usize)
    ensures
        r == saturating_mul_spec(a, b),
{
    match a.checked_mul(b) {
        Some(p) => p,
        None => usize::MAX,
    }
}

/// The least multiple of `align` that is at least `value`.
pub open spec fn round_up_spec(value: int, align: int) -> int {
    if value % align == 0 {
        value
    } else {
        value - value % align + align
    }
}

/// The greatest multiple of `align` that is at most `value`.
pub open spec fn round_down_spec(value: int, align: int) -> int {
    value - value % align
}

/// Rounding up with a power-of-two mask: `None` where `value + align - 1` overflows.
pub open spec fn checked_round_up_spec(value: usize, align: usize) -> Option<usize> {
    if value + align - 1 > usize::MAX {
        None
    } else {
        Some(round_up_spec(value as int, align as int) as usize)
    }
}

/// For a power-of-two `align`, checked rounding up gives the first multiple of `align` at
/// or after `value`, and fails only where `value + align - 1` leaves the address space.
pub proof fn lemma_checked_round_up_is_next_multiple(value: usize, align: usize)
    requires
        is_pow2(align),
    ensures
        (checked_round_up_spec(value, align) is None) == (value + align - 1 > usize::MAX),
        checked_round_up_spec(value, align) matches Some(r) ==> r % align == 0 && value <= r && r
            < value + align,
{
    lemma_align_masks(0, align);
    lemma_round_up_bounds(value as int, align as int);
}

/// Saturating multiplication gives the product where it fits and the largest value
/// otherwise.
pub proof fn lemma_saturating_mul_law(a: usize, b: usize)
    ensures
        a * b <= usize::MAX ==> saturating_mul_spec(a, b) == a * b,
        a * b > usize::MAX ==> saturating_mul_spec(a, b) == usize::MAX,
{
}

/// Rounds `value` up to a multiple of the power of two `align`.
pub fn checked_round_up(value: usize, align: usize) -> (r: Option<usize>)
    requires
        is_pow2(align),
    ensures
        r == checked_round_up_spec(value, align),
{
    proof {
        lemma_align_masks(value, align);
    }
    let mask = align - 1;
    match value.checked_add(mask) {
        Some(sum) => {
            proof {
                lemma_align_masks(sum, align);
                lemma_round_up_from_sum(value as int, align as int);
            }
            Some(sum & !mask)
        },
        None => None,
    }
}

/// Rounds `value` down to a multiple of the power of two `align`.
pub fn round_down(value: usize, align: usize) -> (r: usize)
    requires
        is_pow2(align),
    ensures
        r == round_down_spec(value as int, align as int),
{
    proof {
        lemma_align_masks(value, align);
    }
    value & !(align - 1)
}

proof fn lemma_round_up_from_sum(value: int, align: int)
    requires
        value >= 0,
        align > 0,
    ensures
        (value + align - 1) - (value + align - 1) % align == round_up_spec(value, align),
{
    let s = value + align - 1;
    vstd::arithmetic::div_mod::lemma_fundamental_div_mod(value, align);
    vstd::arithmetic::div_mod::lemma_fundamental_div_mod(s, align);
    let q = value / align;
    let r = value % align;
    assert(0 <= r < align);
    if r == 0 {
        assert(s == q * align + (align - 1)) by (nonlinear_arith)
            requires
                s == value + align - 1,
                value == align * q + r,
                r == 0,
        ;
        vstd::arithmetic::div_mod::lemma_fundamental_div_mod_converse(s, align, q, align - 1);
    } else {
        assert(s == (q + 1) * align + (r - 1)) by (nonlinear_arith)
            requires
                s == value + align - 1,
                value == align * q + r,
        ;
        vstd::arithmetic::div_mod::lemma_fundamental_div_mod_converse(s, align, q + 1, r - 1);
        assert(align * (q + 1) == align * q + align) by (nonlinear_arith);
    }
}

/// A rounded-up value is a multiple of `align`, at least `value` and less than
/// `value + align`.
pub proof fn lemma_round_up_bounds(value: int, align: int)
    requires
        value >= 0,
        align > 0,
    ensures
        round_up_spec(value, align) % align == 0,
        value <= round_up_spec(value, align) < value + align,
{
    vstd::arithmetic::div_mod::lemma_fundamental_div_mod(value, align);
    let q = value / align;
    if value % align != 0 {
        assert(round_up_spec(value, align) == (q + 1) * align) by (nonlinear_arith)
            requires
                value == align * q + value % align,
                round_up_spec(value, align) == value - value % align + align,
        ;
        vstd::arithmetic::div_mod::lemma_mod_multiples_basic(q + 1, align);
    } else {
        assert(value == q * align) by (nonlinear_arith)
            requires
                value == align * q + value % align,
                value % align == 0,
        ;
        vstd::arithmetic::div_mod::lemma_mod_multiples_basic(q, align);
    }
}

/// A rounded-down value is a multiple of `align`, at most `value` and more than
/// `value - align`.
pub proof fn lemma_round_down_bounds(value: int, align: int)
    requires
        value >= 0,
        align > 0,
    ensures
        round_down_spec(value, align) % align == 0,
        value - align < round_down_spec(value, align) <= value,
        round_down_spec(value, align) >= 0,
{
    vstd::arithmetic::div_mod::lemma_fundamental_div_mod(value, align);
    let q = value / align;
    assert(round_down_spec(value, align) == q * align) by (nonlinear_arith)
        requires
            value == align * q + value % align,
            round_down_spec(value, align) == value - value % align,
    ;
    vstd::arithmetic::div_mod::lemma_mod_multiples_basic(q, align);
    assert(q >= 0) by {
        vstd::arithmetic::div_mod::lemma_div_pos_is_pos(value, align);
    }
    assert(q * align >= 0) by (nonlinear_arith)
        requires
            q >= 0,
            align > 0,
    ;
}

} // verus!
