//! Properties of the pipeline as a whole, across its actors.

use vstd::prelude::*;
use crate::actor::generator::consecutive;
use crate::actor::logger::{
    buzz_in, buzz_kind, count_where, fizz_in, fizz_kind, fizzbuzz_in, fizzbuzz_kind, value_in, value_kind,
};
use crate::actor::worker::{classify, classify_all, FizzBuzzMessage};

verus! {

/// How many of the values `start`, ..., `start + n - 1` get a message that
/// satisfies `p`.
pub open spec fn kind_count(start: int, n: nat, p: spec_fn(FizzBuzzMessage) -> bool) -> nat
    decreases n,
{
    if n == 0 {
        0
    } else {
        kind_count(start, (n - 1) as nat, p) + (if p(classify((start + n - 1) as u64)) { 1nat } else { 0nat })
    }
}

proof fn lemma_count_of_run(start: int, n: nat, p: spec_fn(FizzBuzzMessage) -> bool)
    ensures
        count_where(classify_all(consecutive(start, n as int)), p) == kind_count(start, n, p),
    decreases n,
{
    if n > 0 {
        lemma_count_of_run(start, (n - 1) as nat, p);
        assert(classify_all(consecutive(start, n as int)).drop_last() == classify_all(consecutive(start, n - 1)));
    }
}

proof fn lemma_residues(base: int, j: int)
    requires
        0 <= base,
        0 <= j,
        base % 15 == 0,
    ensures
        (base + j) % 3 == j % 3,
        (base + j) % 5 == j % 5,
{
    let q = base / 15;
    vstd::arithmetic::div_mod::lemma_fundamental_div_mod(base, 15);
    assert(base == 3 * (5 * q)) by (nonlinear_arith)
        requires
            base == 15 * q + 0,
    ;
    assert(base == 5 * (3 * q)) by (nonlinear_arith)
        requires
            base == 15 * q + 0,
    ;
    vstd::arithmetic::div_mod::lemma_mod_multiples_vanish(5 * q, j, 3);
    vstd::arithmetic::div_mod::lemma_mod_multiples_vanish(3 * q, j, 5);
}

/// A kind predicate does not look at the value a `Value` message carries.
pub open spec fn looks_at_kind_only(p: spec_fn(FizzBuzzMessage) -> bool) -> bool {
    forall|x: u64, y: u64| p(FizzBuzzMessage::Value(x)) == p(FizzBuzzMessage::Value(y))
}

proof fn lemma_block_like_first(base: int, n: nat, p: spec_fn(FizzBuzzMessage) -> bool)
    requires
        0 <= base,
        base % 15 == 0,
        base + n <= u64::MAX,
        looks_at_kind_only(p),
    ensures
        kind_count(base, n, p) == kind_count(0, n, p),
    decreases n,
{
    if n > 0 {
        lemma_block_like_first(base, (n - 1) as nat, p);
        lemma_residues(base, n - 1);
        let a = classify((base + n - 1) as u64);
        let b = classify((0 + n - 1) as u64);
        if a is Value {
            assert(p(a) == p(b));
        }
    }
}

proof fn lemma_run_split(start: int, n: nat, m: nat, p: spec_fn(FizzBuzzMessage) -> bool)
    ensures
        kind_count(start, n + m, p) == kind_count(start, n, p) + kind_count(start + n, m, p),
    decreases m,
{
    if m > 0 {
        lemma_run_split(start, n, (m - 1) as nat, p);
        assert(start + (n + m) - 1 == start + n + m - 1);
    }
}

proof fn lemma_first_block()
    ensures
        kind_count(0, 15, fizz_kind()) == 4,
        kind_count(0, 15, buzz_kind()) == 2,
        kind_count(0, 15, fizzbuzz_kind()) == 1,
        kind_count(0, 15, value_kind()) == 8,
{
    reveal_with_fuel(kind_count, 16);
}

/// Of every fifteen consecutive values from zero on, four become Fizz, two
/// Buzz, one FizzBuzz and eight plain values: after the worker has converted
/// the first `15 * k` generated values, the logger's counts stand at `4 * k`,
/// `2 * k`, `k` and `8 * k`.
pub proof fn lemma_fizzbuzz_proportions(k: nat)
    requires
        15 * k <= u64::MAX,
    ensures
        fizz_in(classify_all(consecutive(0, (15 * k) as int))) == 4 * k,
        buzz_in(classify_all(consecutive(0, (15 * k) as int))) == 2 * k,
        fizzbuzz_in(classify_all(consecutive(0, (15 * k) as int))) == k,
        value_in(classify_all(consecutive(0, (15 * k) as int))) == 8 * k,
    decreases k,
{
    lemma_count_of_run(0, 15 * k, fizz_kind());
    lemma_count_of_run(0, 15 * k, buzz_kind());
    lemma_count_of_run(0, 15 * k, fizzbuzz_kind());
    lemma_count_of_run(0, 15 * k, value_kind());
    if k > 0 {
        let prev = (k - 1) as nat;
        lemma_fizzbuzz_proportions(prev);
        lemma_count_of_run(0, 15 * prev, fizz_kind());
        lemma_count_of_run(0, 15 * prev, buzz_kind());
        lemma_count_of_run(0, 15 * prev, fizzbuzz_kind());
        lemma_count_of_run(0, 15 * prev, value_kind());
        lemma_run_split(0, 15 * prev, 15, fizz_kind());
        lemma_run_split(0, 15 * prev, 15, buzz_kind());
        lemma_run_split(0, 15 * prev, 15, fizzbuzz_kind());
        lemma_run_split(0, 15 * prev, 15, value_kind());
        lemma_block_like_first((15 * prev) as int, 15, fizz_kind());
        lemma_block_like_first((15 * prev) as int, 15, buzz_kind());
        lemma_block_like_first((15 * prev) as int, 15, fizzbuzz_kind());
        lemma_block_like_first((15 * prev) as int, 15, value_kind());
        lemma_first_block();
        assert(15 * prev + 15 == 15 * k);
    }
}

} // verus!
