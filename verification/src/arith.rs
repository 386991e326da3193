use vstd::prelude::*;
use vstd::std_specs::bits::u64_leading_zeros;

verus! {

/// The base-2 logarithm of `n`, rounded down (0 for 0 and 1).
pub open spec fn log2(n: nat) -> nat
    decreases n,
{
    if n < 2 {
        0
    } else {
        1 + log2(n / 2)
    }
}

/// Whether `n` is a power of two (1, 2, 4, ...).
pub open spec fn is_power_of_two(n: nat) -> bool
    decreases n,
{
    if n == 1 {
        true
    } else if n < 2 || n % 2 != 0 {
        false
    } else {
        is_power_of_two(n / 2)
    }
}

/// For a positive `x`, `63 - x.leading_zeros()` is the base-2 logarithm of `x`.
pub proof fn lemma_leading_zeros_log2(x: u64)
    requires
        x > 0,
    ensures
        63 - u64_leading_zeros(x) == log2(x as nat),
    decreases x,
{
    reveal(u64_leading_zeros);
    if x == 1 {
        assert(u64_leading_zeros(0) == 64);
        assert(u64_leading_zeros(1) == u64_leading_zeros(0) - 1);
    } else {
        lemma_leading_zeros_log2(x / 2);
        assert(u64_leading_zeros(x) == u64_leading_zeros(x / 2) - 1);
    }
}

/// The logarithm grows with its argument.
pub proof fn lemma_log2_monotone(a: nat, b: nat)
    requires
        a <= b,
    ensures
        log2(a) <= log2(b),
    decreases b,
{
    if a >= 2 {
        lemma_log2_monotone(a / 2, b / 2);
    }
}

/// A logarithm below 64 for every value that fits in 64 bits.
pub proof fn lemma_log2_u64(x: u64)
    ensures
        log2(x as nat) <= 63,
{
    if x > 0 {
        lemma_leading_zeros_log2(x);
        vstd::std_specs::bits::axiom_u64_leading_zeros(x);
    }
}

/// Two powers of two with the same logarithm are equal.
pub proof fn lemma_log2_injective(a: nat, b: nat)
    requires
        is_power_of_two(a),
        is_power_of_two(b),
        log2(a) == log2(b),
    ensures
        a == b,
    decreases a,
{
    if a == 1 || b == 1 {
        if a != 1 {
            assert(log2(a) >= 1);
        }
        if b != 1 {
            assert(log2(b) >= 1);
        }
    } else {
        lemma_log2_injective(a / 2, b / 2);
    }
}

/// The logarithm of a number between 2 and 256 is between 1 and 8.
pub proof fn lemma_log2_range(n: nat)
    requires
        2 <= n <= 256,
    ensures
        1 <= log2(n) <= 8,
{
    lemma_log2_monotone(n, 256);
    assert(log2(256) == 8) by {
        reveal_with_fuel(log2, 10);
    }
    lemma_log2_monotone(2, n);
}

} // verus!
