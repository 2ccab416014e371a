//! Arithmetic and greeting routines of a small WebAssembly utility module.
//!
//! The module exports three host-callable functions: `sum`, a 32-bit addition
//! that wraps modulo 2^32; `loop_test`, which accumulates `sum(1, 1)` a given
//! number of times; and `greet`, which produces the message that the host's
//! `alert` displays. The host bindings themselves live outside this library.

use vstd::arithmetic::div_mod::{lemma_add_mod_noop, lemma_mod_multiples_vanish, lemma_small_mod};
use vstd::prelude::*;

verus! {

/// What `sum` computes: the sum of `a` and `b`, wrapped modulo 2^32.
pub open spec fn sum_spec(a: u32, b: u32) -> u32 {
    ((a + b) % 0x1_0000_0000) as u32
}

/// Adds two 32-bit unsigned integers, wrapping around modulo 2^32 on
/// overflow.
pub fn sum(num1: u32, num2: u32) -> (r: u32)
    ensures
        r == sum_spec(num1, num2),
{
    proof {
        if num1 + num2 <= u32::MAX {
            lemma_small_mod((num1 + num2) as nat, 0x1_0000_0000nat);
        } else {
            lemma_mod_multiples_vanish(1, num1 + num2 - 0x1_0000_0000, 0x1_0000_0000);
            lemma_small_mod((num1 + num2 - 0x1_0000_0000) as nat, 0x1_0000_0000nat);
        }
    }
    num1.wrapping_add(num2)
}

/// The wrapping sum does not depend on the order of its operands.
pub proof fn lemma_sum_commutative(a: u32, b: u32)
    ensures
        sum_spec(a, b) == sum_spec(b, a),
{
}

/// The wrapping sum is associative: wrapping after each addition gives the
/// same result as wrapping a single three-way sum, whichever pair is added
/// first.
pub proof fn lemma_sum_associative(a: u32, b: u32, c: u32)
    ensures
        sum_spec(sum_spec(a, b), c) == sum_spec(a, sum_spec(b, c)),
{
    lemma_small_mod(a as nat, 0x1_0000_0000nat);
    lemma_small_mod(c as nat, 0x1_0000_0000nat);
    lemma_add_mod_noop(a + b, c as int, 0x1_0000_0000);
    lemma_add_mod_noop(a as int, b + c, 0x1_0000_0000);
}

/// The value reached by starting from zero and adding `sum(1, 1)` a total of
/// `n` times, each addition wrapping modulo 2^32.
pub open spec fn iterated_sum(n: nat) -> u32
    decreases n,
{
    if n == 0 {
        0u32
    } else {
        sum_spec(iterated_sum((n - 1) as nat), sum_spec(1u32, 1u32))
    }
}

/// Accumulating `sum(1, 1)` a total of `n` times amounts to `2 * n`, wrapped
/// modulo 2^32.
pub proof fn lemma_iterated_sum_closed_form(n: nat)
    ensures
        iterated_sum(n) == (2 * n) % 0x1_0000_0000,
    decreases n,
{
    if n > 0 {
        lemma_iterated_sum_closed_form((n - 1) as nat);
        lemma_add_mod_noop(2 * (n - 1), 2, 0x1_0000_0000);
    }
}

/// Starts from zero and adds `sum(1, 1)` exactly `max` times, wrapping modulo
/// 2^32; the result is `2 * max`, wrapped modulo 2^32.
pub fn loop_test(max: u32) -> (r: u32)
    ensures
        r == iterated_sum(max as nat),
        r == (2 * max) % 0x1_0000_0000,
{
    let mut i: u32 = 0;
    let mut result: u32 = 0;
    while i < max
        invariant
            i <= max,
            result == iterated_sum(i as nat),
        decreases max - i,
    {
        result = sum(result, sum(1, 1));
        i = i + 1;
    }
    proof {
        lemma_iterated_sum_closed_form(max as nat);
    }
    result
}

/// The message that `greet` hands to the host's `alert`.
pub open spec fn greeting() -> Seq<char> {
    "Hello, wasm-util!"@
}

/// Produces the greeting message, exactly as the host's `alert` is to display
/// it. Showing the message is the host's side of the work and happens outside
/// this library.
pub fn greet() -> (r: String)
    ensures
        r@ == greeting(),
{
    String::from_str("Hello, wasm-util!")
}

} // verus!
