//! Alignment arithmetic: powers of two and rounding up to a multiple of one.

use vstd::arithmetic::div_mod::{
    lemma_fundamental_div_mod, lemma_fundamental_div_mod_converse, lemma_mod_multiples_basic,
};
use vstd::arithmetic::power2::{
    lemma2_to64, lemma_pow2_adds, lemma_pow2_pos, lemma_pow2_strictly_increases, pow2,
};
use vstd::bits::{lemma_usize_low_bits_mask_is_mod, low_bits_mask};
use vstd::layout::unsigned_int_max_values;
use vstd::prelude::*;

verus! {

/// Whether `n` is a power of two that fits in `usize`.
pub open spec fn is_power_of_two(n: int) -> bool {
    exists|e: nat| e < usize::BITS && n == #[trigger] pow2(e)
}

/// The least multiple of `multiple` that is not below `size`.
pub open spec fn round_up_spec(size: int, multiple: int) -> int {
    ((size + multiple - 1) / multiple) * multiple
}

/// A power of two is positive.
pub proof fn lemma_power_of_two_positive(n: int)
    requires
        is_power_of_two(n),
    ensures
        n > 0,
{
    let e = choose|e: nat| e < usize::BITS && n == #[trigger] pow2(e);
    lemma_pow2_pos(e);
}

/// Of two powers of two the smaller divides the larger.
pub proof fn lemma_power_of_two_divides(small: int, large: int)
    requires
        is_power_of_two(small),
        is_power_of_two(large),
        small <= large,
    ensures
        large % small == 0,
{
    let a = choose|e: nat| e < usize::BITS && small == #[trigger] pow2(e);
    let b = choose|e: nat| e < usize::BITS && large == #[trigger] pow2(e);
    lemma_pow2_pos(a);
    if b < a {
        lemma_pow2_strictly_increases(b, a);
    }
    let c = (b - a) as nat;
    lemma_pow2_adds(a, c);
    assert(pow2(a) * pow2(c) == pow2(c) * pow2(a)) by (nonlinear_arith);
    lemma_mod_multiples_basic(pow2(c) as int, pow2(a) as int);
}

/// The alignments of function bodies, unwind blocks and data sections are
/// powers of two.
pub proof fn lemma_small_powers_of_two()
    ensures
        is_power_of_two(4),
        is_power_of_two(16),
        is_power_of_two(64),
{
    lemma2_to64();
    assert(4 == pow2(2));
    assert(16 == pow2(4));
    assert(64 == pow2(6));
}

/// `round_up_spec` is a multiple of `multiple`, is not below `size`, and adds
/// less than `multiple`.
pub proof fn lemma_round_up_bounds(size: int, multiple: int)
    requires
        multiple > 0,
    ensures
        round_up_spec(size, multiple) % multiple == 0,
        size <= round_up_spec(size, multiple) < size + multiple,
{
    let b = size + multiple - 1;
    let q = b / multiple;
    lemma_fundamental_div_mod(b, multiple);
    assert(multiple * q == q * multiple) by (nonlinear_arith);
    lemma_mod_multiples_basic(q, multiple);
}

/// No multiple of `multiple` lies between `size` and `round_up_spec`.
pub proof fn lemma_round_up_least(size: int, multiple: int, other: int)
    requires
        multiple > 0,
        other % multiple == 0,
        size <= other,
    ensures
        round_up_spec(size, multiple) <= other,
{
    lemma_round_up_bounds(size, multiple);
    let r = round_up_spec(size, multiple);
    if other < r {
        lemma_sum_of_multiples(r, -other, multiple);
        let gap = r - other;
        assert(0 < gap < multiple);
        lemma_fundamental_div_mod_converse(gap, multiple, 0, gap);
        assert(false);
    }
}

/// A multiple of `multiple` rounds up to itself.
pub proof fn lemma_round_up_of_multiple(size: int, multiple: int)
    requires
        multiple > 0,
        size % multiple == 0,
    ensures
        round_up_spec(size, multiple) == size,
{
    lemma_round_up_bounds(size, multiple);
    lemma_round_up_least(size, multiple, size);
}

/// Rounding up commutes with adding a multiple of `multiple`.
pub proof fn lemma_round_up_shift(base: int, size: int, multiple: int)
    requires
        multiple > 0,
        base % multiple == 0,
    ensures
        round_up_spec(base + size, multiple) == base + round_up_spec(size, multiple),
{
    lemma_round_up_bounds(size, multiple);
    lemma_round_up_bounds(base + size, multiple);
    let r = round_up_spec(size, multiple);
    let s = round_up_spec(base + size, multiple);
    lemma_sum_of_multiples(base, r, multiple);
    lemma_sum_of_multiples(s, -base, multiple);
    lemma_round_up_least(base + size, multiple, base + r);
    lemma_round_up_least(size, multiple, s - base);
}

/// Rounding up to a fine grain first does not change the result of rounding
/// up to a coarse grain that the fine one divides.
pub proof fn lemma_round_up_coarser(size: int, fine: int, coarse: int)
    requires
        fine > 0,
        coarse > 0,
        coarse % fine == 0,
    ensures
        round_up_spec(round_up_spec(size, fine), coarse) == round_up_spec(size, coarse),
{
    lemma_round_up_bounds(size, fine);
    lemma_round_up_bounds(size, coarse);
    lemma_round_up_bounds(round_up_spec(size, fine), coarse);
    let f = round_up_spec(size, fine);
    let c = round_up_spec(size, coarse);
    let cf = round_up_spec(f, coarse);
    lemma_multiple_of_multiple(c, fine, coarse);
    lemma_round_up_least(size, fine, c);
    lemma_round_up_least(f, coarse, c);
    lemma_round_up_least(size, coarse, cf);
}

/// The sum of two multiples of `m` is a multiple of `m`; so is the negation
/// of one.
pub proof fn lemma_sum_of_multiples(a: int, b: int, m: int)
    requires
        m > 0,
        a % m == 0,
        b % m == 0 || (-b) % m == 0,
    ensures
        (a + b) % m == 0,
{
    lemma_fundamental_div_mod(a, m);
    if b % m == 0 {
        lemma_fundamental_div_mod(b, m);
        let q = a / m + b / m;
        assert(a + b == q * m) by (nonlinear_arith)
            requires
                a == m * (a / m),
                b == m * (b / m),
                q == a / m + b / m,
        ;
        lemma_mod_multiples_basic(q, m);
    } else {
        lemma_fundamental_div_mod(-b, m);
        let q = a / m - (-b) / m;
        assert(a + b == q * m) by (nonlinear_arith)
            requires
                a == m * (a / m),
                -b == m * ((-b) / m),
                q == a / m - (-b) / m,
        ;
        lemma_mod_multiples_basic(q, m);
    }
}

/// A multiple of `coarse` is a multiple of every divisor `fine` of `coarse`.
pub proof fn lemma_multiple_of_multiple(x: int, fine: int, coarse: int)
    requires
        fine > 0,
        coarse > 0,
        coarse % fine == 0,
        x % coarse == 0,
    ensures
        x % fine == 0,
{
    lemma_fundamental_div_mod(x, coarse);
    lemma_fundamental_div_mod(coarse, fine);
    let q = (x / coarse) * (coarse / fine);
    assert(x == q * fine) by (nonlinear_arith)
        requires
            x == coarse * (x / coarse),
            coarse == fine * (coarse / fine),
            q == (x / coarse) * (coarse / fine),
    ;
    lemma_mod_multiples_basic(q, fine);
}

/// No multiple of a power of two lies above `usize::MAX + 1 - multiple` and
/// within `usize`.
pub proof fn lemma_round_up_overflows(size: int, multiple: int)
    requires
        is_power_of_two(multiple),
        size > usize::MAX - (multiple - 1),
    ensures
        round_up_spec(size, multiple) > usize::MAX,
{
    lemma_power_of_two_positive(multiple);
    lemma_round_up_bounds(size, multiple);
    let r = round_up_spec(size, multiple);
    if r <= usize::MAX {
        let e = choose|e: nat| e < usize::BITS && multiple == #[trigger] pow2(e);
        unsigned_int_max_values();
        let c = (usize::BITS - e) as nat;
        lemma_pow2_adds(e, c);
        lemma_pow2_pos(c);
        let top = usize::MAX + 1;
        assert(pow2(e) * pow2(c) == pow2(c) * pow2(e)) by (nonlinear_arith);
        lemma_mod_multiples_basic(pow2(c) as int, multiple);
        assert(top % multiple == 0);
        lemma_sum_of_multiples(top, -r, multiple);
        let gap = top - r;
        assert(gap % multiple == 0);
        assert(0 < gap < multiple);
        lemma_fundamental_div_mod_converse(gap, multiple, 0, gap);
        assert(false);
    }
}

proof fn lemma_clear_mask(y: usize, k: usize)
    by (bit_vector)
    ensures
        y & !k == y - (y & k),
{
}

/// Rounds `size` up to the next multiple of the power of two `multiple`.
pub fn round_up(size: usize, multiple: usize) -> (rounded: usize)
    requires
        is_power_of_two(multiple as int),
        size + multiple - 1 <= usize::MAX,
    ensures
        rounded == round_up_spec(size as int, multiple as int),
{
    proof {
        lemma_power_of_two_positive(multiple as int);
    }
    let mask: usize = multiple - 1;
    let bumped: usize = size + mask;
    proof {
        let e = choose|e: nat| e < usize::BITS && multiple == #[trigger] pow2(e);
        assert(mask == low_bits_mask(e) as usize);
        lemma_usize_low_bits_mask_is_mod(bumped, e);
        lemma_clear_mask(bumped, mask);
        lemma_fundamental_div_mod(bumped as int, multiple as int);
        assert(multiple * (bumped as int / multiple as int) == (bumped as int / multiple as int)
            * multiple) by (nonlinear_arith);
    }
    bumped & !mask
}

/// Rounds `size` up to the next multiple of the power of two `multiple`, or
/// gives `None` when that multiple does not fit in `usize`.
pub fn checked_round_up(size: usize, multiple: usize) -> (rounded: Option<usize>)
    requires
        is_power_of_two(multiple as int),
    ensures
        match rounded {
            Some(r) => r == round_up_spec(size as int, multiple as int),
            None => round_up_spec(size as int, multiple as int) > usize::MAX,
        },
{
    proof {
        lemma_power_of_two_positive(multiple as int);
    }
    if size <= usize::MAX - (multiple - 1) {
        Some(round_up(size, multiple))
    } else {
        proof {
            lemma_round_up_overflows(size as int, multiple as int);
        }
        None
    }
}

/// Tells whether `n` is a power of two.
pub fn is_power_of_two_exec(n: usize) -> (yes: bool)
    ensures
        yes == is_power_of_two(n as int),
{
    let mut power: usize = 1;
    let mut exponent: u32 = 0;
    proof {
        lemma2_to64();
    }
    while power < n && power <= usize::MAX / 2
        invariant
            exponent < usize::BITS,
            power >= 1,
            power == pow2(exponent as nat),
            forall|e: nat| e < exponent ==> #[trigger] pow2(e) < n,
        decreases usize::MAX - power,
    {
        proof {
            lemma2_to64();
            lemma_pow2_adds(exponent as nat, 1);
            unsigned_int_max_values();
            assert(pow2((exponent + 1) as nat) == 2 * power);
            if exponent + 1 >= usize::BITS {
                assert(pow2(usize::BITS as nat) == 2 * power);
                assert(false);
            }
            assert forall|e: nat| e < exponent + 1 implies #[trigger] pow2(e) < n by {
                if e == exponent {
                } else {
                    assert(e < exponent);
                }
            }
        }
        power = power * 2;
        exponent = exponent + 1;
    }
    proof {
        if power == n {
            assert(n == pow2(exponent as nat));
        } else {
            if is_power_of_two(n as int) {
                let e = choose|e: nat| e < usize::BITS && n == #[trigger] pow2(e);
                if e < exponent {
                    assert(pow2(e) < n);
                } else if e == exponent {
                } else {
                    // `n` lies above `power`, so the loop stopped for want of room.
                    lemma_pow2_strictly_increases(exponent as nat, e);
                    assert(power > usize::MAX / 2);
                    lemma2_to64();
                    lemma_pow2_adds(exponent as nat, 1);
                    if exponent + 1 < e {
                        lemma_pow2_strictly_increases((exponent + 1) as nat, e);
                    }
                    assert(pow2(e) >= 2 * power);
                }
                assert(false);
            }
        }
    }
    power == n
}

} // verus!
