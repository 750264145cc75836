//! Basis-point arithmetic and the median used for oracle consensus.
use vstd::prelude::*;
use vstd::relations::{sorted_by, total_ordering};
use vstd::seq_lib::{lemma_sorted_unique, to_multiset_build, to_multiset_insert};

verus! {

/// Number of basis points in a whole.
pub const BPS_DENOMINATOR: u64 = 10000;

/// `amount * bps / 10000`, rounded down.
pub open spec fn bps_of(amount: int, bps: int) -> int {
    amount * bps / 10000
}

/// `amount * bps / 10000` rounded down, computed without intermediate overflow.
pub fn apply_bps(amount: u64, bps: u16) -> (r: u64)
    requires
        bps <= 10000,
    ensures
        r == bps_of(amount as int, bps as int),
        r <= amount,
{
    assert((amount as int) * (bps as int) <= (amount as int) * 10000) by (nonlinear_arith)
        requires
            bps <= 10000,
            amount >= 0,
    ;
    let wide: u128 = (amount as u128) * (bps as u128);
    let q: u128 = wide / 10000;
    assert(q <= amount) by (nonlinear_arith)
        requires
            q == wide / 10000,
            wide <= amount * 10000,
            amount >= 0,
    ;
    q as u64
}

/// Share, in basis points, that the larger of two amounts holds of `total`.
pub open spec fn imbalance_of(larger: int, total: int) -> int {
    larger * 10000 / total
}

/// `|a - b|`.
pub open spec fn abs_diff(a: int, b: int) -> int {
    if a >= b {
        a - b
    } else {
        b - a
    }
}

/// The order in which prices are sorted.
pub open spec fn price_leq() -> spec_fn(u64, u64) -> bool {
    |a: u64, b: u64| a <= b
}

/// The prices in ascending order.
pub open spec fn sorted_prices(s: Seq<u64>) -> Seq<u64> {
    s.sort_by(price_leq())
}

/// The median of a non-empty list of prices; of the two middle prices of an
/// even-length list, the lower.
pub open spec fn median_price(s: Seq<u64>) -> u64 {
    sorted_prices(s)[(s.len() - 1) / 2]
}

/// Whether `price` lies more than `max_bps` basis points away from `median`
/// (the distance in basis points being rounded down). Against a median of zero,
/// any non-zero price lies too far.
pub open spec fn deviation_exceeds(price: u64, median: u64, max_bps: u16) -> bool {
    if median == 0 {
        price != 0
    } else {
        abs_diff(price as int, median as int) * 10000 / (median as int) > max_bps as int
    }
}

/// Prices are totally ordered by `<=`.
pub proof fn lemma_price_leq_total_ordering()
    ensures
        total_ordering(price_leq()),
{
}

/// Sorts prices into ascending order.
pub fn sort_prices(v: &Vec<u64>) -> (r: Vec<u64>)
    ensures
        r@ == sorted_prices(v@),
{
    broadcast use vstd::seq_lib::group_to_multiset_ensures;

    let mut out: Vec<u64> = Vec::new();
    let mut k: usize = 0;
    while k < v.len()
        invariant
            k <= v.len(),
            forall|i: int, j: int| 0 <= i < j < out@.len() ==> out@[i] <= out@[j],
            out@.to_multiset() == v@.subrange(0, k as int).to_multiset(),
        decreases v.len() - k,
    {
        let x = v[k];
        let mut pos: usize = 0;
        while pos < out.len() && out[pos] <= x
            invariant
                pos <= out.len(),
                forall|j: int| 0 <= j < pos ==> out@[j] <= x,
            decreases out.len() - pos,
        {
            pos = pos + 1;
        }
        let ghost before = out@;
        out.insert(pos, x);
        proof {
            assert(forall|j: int| pos <= j < before.len() ==> x < before[j]);
            assert(out@ == before.insert(pos as int, x));
            assert forall|i: int, j: int| 0 <= i < j < out@.len() implies out@[i] <= out@[j] by {
                if j < pos {
                } else if j == pos {
                } else if i < pos {
                    assert(out@[j] == before[j - 1]);
                } else if i == pos {
                    assert(out@[j] == before[j - 1]);
                } else {
                    assert(out@[i] == before[i - 1]);
                    assert(out@[j] == before[j - 1]);
                }
            }
            assert(v@.subrange(0, k + 1) =~= v@.subrange(0, k as int).push(x));
            to_multiset_insert(before, pos as int, x);
            to_multiset_build(v@.subrange(0, k as int), x);
        }
        k = k + 1;
    }
    proof {
        assert(v@.subrange(0, v@.len() as int) =~= v@);
        lemma_price_leq_total_ordering();
        v@.lemma_sort_by_ensures(price_leq());
        assert(sorted_by(out@, price_leq()));
        lemma_sorted_unique(out@, v@.sort_by(price_leq()), price_leq());
    }
    out
}

/// Median of a non-empty list of prices, as `median_price` defines it.
pub fn median_of(prices: &Vec<u64>) -> (r: u64)
    requires
        prices@.len() > 0,
    ensures
        r == median_price(prices@),
{
    let sorted = sort_prices(prices);
    proof {
        lemma_sorted_prices_len(prices@);
    }
    sorted[(sorted.len() - 1) / 2]
}

proof fn lemma_sorted_prices_len(s: Seq<u64>)
    ensures
        sorted_prices(s).len() == s.len(),
{
    broadcast use vstd::seq_lib::group_to_multiset_ensures;

    lemma_price_leq_total_ordering();
    s.lemma_sort_by_ensures(price_leq());
    assert(s.to_multiset().len() == s.len());
}

/// Whether `price` lies more than `max_bps` basis points away from `median`.
pub fn exceeds_deviation(price: u64, median: u64, max_bps: u16) -> (r: bool)
    ensures
        r == deviation_exceeds(price, median, max_bps),
{
    if median == 0 {
        return price != 0;
    }
    let diff: u64 = if price > median {
        price - median
    } else {
        median - price
    };
    let scaled: u128 = (diff as u128) * 10000;
    (scaled / (median as u128)) > max_bps as u128
}

} // verus!
