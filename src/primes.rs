use vstd::prelude::*;

verus! {

/// The largest prime index computed where `usize` has 64 bits. Up to it,
/// primal's upper estimate n(ln n + ln ln n - 0.9484) of the n-th prime, the
/// limit its sieve runs to, stays below 2^63 (about 8.5e18 here), so every
/// product the sieve forms fits in 64 bits.
pub const MAX_PRIME_INDEX_64: u64 = 200000000000000000;

/// The largest prime index computed where `usize` has 32 bits: the same
/// estimate stays below 2^31 (about 2.146e9 here).
pub const MAX_PRIME_INDEX_32: u64 = 105000000;

/// The largest prime index that this machine computes.
pub open spec fn max_prime_index() -> u64 {
    if usize::MAX as int == u64::MAX as int {
        MAX_PRIME_INDEX_64
    } else {
        MAX_PRIME_INDEX_32
    }
}

/// The largest prime index that this machine computes.
pub fn prime_index_limit() -> (r: u64)
    ensures
        r == max_prime_index(),
{
    if usize::MAX as u64 == u64::MAX {
        MAX_PRIME_INDEX_64
    } else {
        MAX_PRIME_INDEX_32
    }
}

/// `p` is a prime number.
pub open spec fn is_prime(p: int) -> bool {
    p >= 2 && forall|d: int| 2 <= d < p ==> #[trigger] (p % d) != 0
}

/// How many primes are smaller than `p`.
pub open spec fn primes_below(p: int) -> nat
    decreases p,
{
    if p <= 0 {
        0
    } else {
        primes_below(p - 1) + if is_prime(p - 1) {
            1nat
        } else {
            0nat
        }
    }
}

/// `p` is the n-th prime, counted from 1: the first prime is 2.
pub open spec fn is_nth_prime(n: int, p: int) -> bool {
    is_prime(p) && primes_below(p) == n - 1
}

/// The n-th prime, counted from 1.
pub open spec fn prime_at(n: int) -> int {
    choose|p: int| is_nth_prime(n, p)
}

/// Counting primes never goes down as the bound grows.
pub proof fn lemma_primes_below_monotonic(a: int, b: int)
    requires
        a <= b,
    ensures
        primes_below(a) <= primes_below(b),
    decreases b - a,
{
    if a < b {
        lemma_primes_below_monotonic(a, b - 1);
    }
}

/// At most one number is the n-th prime.
pub proof fn lemma_nth_prime_unique(n: int, p: int, q: int)
    requires
        is_nth_prime(n, p),
        is_nth_prime(n, q),
    ensures
        p == q,
{
    if p < q {
        lemma_primes_below_monotonic(p + 1, q);
    } else if q < p {
        lemma_primes_below_monotonic(q + 1, p);
    }
}

/// A number that is the n-th prime is the one that `prime_at` names.
pub proof fn lemma_prime_at(n: int, p: int)
    requires
        is_nth_prime(n, p),
    ensures
        prime_at(n) == p,
{
    let q = prime_at(n);
    assert(is_nth_prime(n, q));
    lemma_nth_prime_unique(n, p, q);
}

/// Relies on primal::StreamingSieve::nth_prime, which returns the n-th prime
/// counted from 1 and panics when `n` is 0. It sieves up to primal's upper
/// estimate of that prime, which `max_prime_index` keeps within `usize`.
#[verifier::external_body]
fn sieve_nth_prime(n: usize) -> (p: usize)
    requires
        1 <= n <= max_prime_index(),
    ensures
        is_nth_prime(n as int, p as int),
{
    primal::StreamingSieve::nth_prime(n)
}

/// The n-th prime, counted from 1, for `1 <= n <= max_prime_index()`;
/// nothing for `n == 0`, which names no prime, nor past that limit.
pub fn nth_prime(n: u64) -> (r: Option<u64>)
    ensures
        (1 <= n <= max_prime_index()) == (r is Some),
        r matches Some(p) ==> p == prime_at(n as int) && is_nth_prime(n as int, p as int),
{
    if n < 1 || n > prime_index_limit() {
        return None;
    }
    let p = sieve_nth_prime(n as usize);
    proof {
        lemma_prime_at(n as int, p as int);
    }
    Some(p as u64)
}

} // verus!
