use vstd::prelude::*;
use vstd::relations::{sorted_by, total_ordering};

use crate::oracle::types::{OracleInput, PriceData, Submission};

verus! {

broadcast use vstd::seq_lib::group_to_multiset_ensures;

/// The ascending order on prices.
pub open spec fn ascending() -> spec_fn(u64, u64) -> bool {
    |a: u64, b: u64| a <= b
}

/// The prices in ascending order.
pub open spec fn sorted_prices(s: Seq<u64>) -> Seq<u64> {
    s.sort_by(ascending())
}

/// The element at zero-based position `floor(n / 2)` of the sorted prices (the upper middle
/// for an even count), or zero for no prices.
pub open spec fn median_of(s: Seq<u64>) -> u64 {
    if s.len() == 0 {
        0
    } else {
        sorted_prices(s)[(s.len() / 2) as int]
    }
}

pub open spec fn sum_of(s: Seq<u64>) -> int
    decreases s.len(),
{
    if s.len() == 0 {
        0
    } else {
        sum_of(s.drop_last()) + s.last()
    }
}

/// The arithmetic mean rounded down, or zero for no prices.
pub open spec fn mean_of(s: Seq<u64>) -> u64 {
    if s.len() == 0 {
        0
    } else {
        (sum_of(s) / (s.len() as int)) as u64
    }
}

pub open spec fn prices_of(batch: Seq<Submission>) -> Seq<u64> {
    batch.map_values(|o: Submission| o.price)
}

/// What a submission contributes to the breakdown of an aggregated price.
pub open spec fn input_of(o: Submission) -> OracleInput {
    OracleInput { source: o.source, price: o.price, latency: 0, timestamp: o.timestamp }
}

pub open spec fn digit_char(d: nat) -> char {
    if d == 0 {
        '0'
    } else if d == 1 {
        '1'
    } else if d == 2 {
        '2'
    } else if d == 3 {
        '3'
    } else if d == 4 {
        '4'
    } else if d == 5 {
        '5'
    } else if d == 6 {
        '6'
    } else if d == 7 {
        '7'
    } else if d == 8 {
        '8'
    } else {
        '9'
    }
}

/// Decimal digits of `n`, without sign or leading zeros.
pub open spec fn decimal(n: nat) -> Seq<char>
    decreases n,
{
    if n < 10 {
        seq![digit_char(n)]
    } else {
        decimal(n / 10).push(digit_char(n % 10))
    }
}

/// Label of an aggregated price that names how many submissions went into it.
pub open spec fn count_label_of(n: nat) -> Seq<char> {
    decimal(n) + " oracles"@
}

/// Network name given to aggregated prices.
pub open spec fn multi_oracle() -> Seq<char> {
    "Multi-Oracle"@
}

/// The price record that aggregating `batch` for `token` at time `now` yields: the mean as
/// the price, and as the time- and volume-weighted prices too, beside the median.
pub open spec fn aggregate_spec(token: Seq<char>, batch: Seq<Submission>, now: u64, r: PriceData) -> bool {
    &&& r.token@ == token
    &&& r.price == mean_of(prices_of(batch))
    &&& r.median == median_of(prices_of(batch))
    &&& r.twap == r.price
    &&& r.vwap == r.price
    &&& r.timestamp == now
    &&& r.source@ == count_label_of(batch.len())
    &&& r.network@ == multi_oracle()
}

pub proof fn lemma_ascending_total()
    ensures
        total_ordering(ascending()),
{
}

proof fn lemma_sum_bound(s: Seq<u64>)
    ensures
        0 <= sum_of(s) <= s.len() * (u64::MAX as int),
    decreases s.len(),
{
    if s.len() > 0 {
        lemma_sum_bound(s.drop_last());
        let n = s.len() as int;
        assert((n - 1) * (u64::MAX as int) + (u64::MAX as int) == n * (u64::MAX as int))
            by (nonlinear_arith);
    }
}

/// The prices in ascending order (an insertion sort).
pub fn sort_prices(prices: &Vec<u64>) -> (r: Vec<u64>)
    ensures
        r@ == sorted_prices(prices@),
{
    let mut out: Vec<u64> = Vec::new();
    let mut i: usize = 0;
    assert(prices@.subrange(0, 0) =~= Seq::<u64>::empty());
    while i < prices.len()
        invariant
            i <= prices.len(),
            out.len() == i,
            sorted_by(out@, ascending()),
            out@.to_multiset() == prices@.subrange(0, i as int).to_multiset(),
        decreases prices.len() - i,
    {
        let x = prices[i];
        let mut j: usize = 0;
        while j < out.len() && out[j] <= x
            invariant
                j <= out.len(),
                forall|k: int| 0 <= k < j ==> out@[k] <= x,
            decreases out.len() - j,
        {
            j = j + 1;
        }
        let ghost before = out@;
        out.insert(j, x);
        proof {
            assert forall|a: int, b: int| 0 <= a < b < out@.len() implies #[trigger] ascending()(
                out@[a],
                out@[b],
            ) by {
                if b < j {
                    assert(ascending()(before[a], before[b]));
                } else if b == j {
                } else if a < j {
                    assert(before[a] <= x);
                    assert(ascending()(before[j as int], before[b - 1]));
                } else if a == j {
                    assert(ascending()(before[j as int], before[b - 1]));
                } else {
                    assert(ascending()(before[a - 1], before[b - 1]));
                }
            }
            assert(prices@.subrange(0, i + 1) =~= prices@.subrange(0, i as int).push(x));
        }
        i = i + 1;
    }
    proof {
        assert(prices@.subrange(0, i as int) =~= prices@);
        lemma_ascending_total();
        prices@.lemma_sort_by_ensures(ascending());
        vstd::seq_lib::lemma_sorted_unique(out@, sorted_prices(prices@), ascending());
    }
    out
}

/// The median of the prices: see `median_of`.
pub fn median(prices: &Vec<u64>) -> (r: u64)
    ensures
        r == median_of(prices@),
{
    if prices.len() == 0 {
        return 0;
    }
    let sorted = sort_prices(prices);
    proof {
        lemma_ascending_total();
        prices@.lemma_sort_by_ensures(ascending());
        assert(sorted@.to_multiset().len() == prices@.to_multiset().len());
    }
    sorted[prices.len() / 2]
}

/// The arithmetic mean of the prices, rounded down; zero for no prices.
pub fn mean(prices: &Vec<u64>) -> (r: u64)
    ensures
        r == mean_of(prices@),
{
    let n = prices.len();
    if n == 0 {
        return 0;
    }
    let mut sum: u128 = 0;
    let mut i: usize = 0;
    while i < n
        invariant
            n == prices.len(),
            i <= n,
            sum == sum_of(prices@.subrange(0, i as int)),
        decreases n - i,
    {
        proof {
            let next = prices@.subrange(0, i + 1);
            assert(next.drop_last() =~= prices@.subrange(0, i as int));
            lemma_sum_bound(next);
            let k = (i + 1) as int;
            assert(k * (u64::MAX as int) <= u128::MAX) by (nonlinear_arith)
                requires
                    k <= usize::MAX + 1,
            ;
        }
        sum = sum + prices[i] as u128;
        i = i + 1;
    }
    proof {
        assert(prices@.subrange(0, n as int) =~= prices@);
        lemma_sum_bound(prices@);
        let t = sum as int;
        let m = n as int;
        assert(t / m <= u64::MAX) by (nonlinear_arith)
            requires
                0 <= t <= m * (u64::MAX as int),
                m > 0,
        ;
    }
    (sum / n as u128) as u64
}

pub fn prices_of_batch(batch: &Vec<Submission>) -> (r: Vec<u64>)
    ensures
        r@ == prices_of(batch@),
{
    let mut r: Vec<u64> = Vec::new();
    let mut i: usize = 0;
    while i < batch.len()
        invariant
            i <= batch.len(),
            r@ == prices_of(batch@.subrange(0, i as int)),
        decreases batch.len() - i,
    {
        r.push(batch[i].price);
        i = i + 1;
        assert(prices_of(batch@.subrange(0, i as int)) =~= prices_of(
            batch@.subrange(0, i - 1),
        ).push(batch@[i - 1].price));
    }
    assert(batch@.subrange(0, i as int) =~= batch@);
    r
}

/// The breakdown of a batch: one input per submission, in order, with no latency measured.
pub fn oracle_inputs(batch: &Vec<Submission>) -> (r: Vec<OracleInput>)
    ensures
        r@ == batch@.map_values(|o: Submission| input_of(o)),
{
    let mut r: Vec<OracleInput> = Vec::new();
    let mut i: usize = 0;
    while i < batch.len()
        invariant
            i <= batch.len(),
            r@ == batch@.subrange(0, i as int).map_values(|o: Submission| input_of(o)),
        decreases batch.len() - i,
    {
        let o = &batch[i];
        r.push(OracleInput { source: o.source.clone(), price: o.price, latency: 0, timestamp: o.timestamp });
        i = i + 1;
        assert(batch@.subrange(0, i as int).map_values(|o: Submission| input_of(o)) =~= batch@.subrange(
            0,
            i - 1,
        ).map_values(|o: Submission| input_of(o)).push(input_of(batch@[i - 1])));
    }
    assert(batch@.subrange(0, i as int) =~= batch@);
    r
}

/// The text of one decimal digit.
fn digit_text(d: usize) -> (r: &'static str)
    requires
        d < 10,
    ensures
        r@ == seq![digit_char(d as nat)],
{
    proof {
        reveal_strlit("0");
        reveal_strlit("1");
        reveal_strlit("2");
        reveal_strlit("3");
        reveal_strlit("4");
        reveal_strlit("5");
        reveal_strlit("6");
        reveal_strlit("7");
        reveal_strlit("8");
        reveal_strlit("9");
    }
    let r = if d == 0 {
        "0"
    } else if d == 1 {
        "1"
    } else if d == 2 {
        "2"
    } else if d == 3 {
        "3"
    } else if d == 4 {
        "4"
    } else if d == 5 {
        "5"
    } else if d == 6 {
        "6"
    } else if d == 7 {
        "7"
    } else if d == 8 {
        "8"
    } else {
        "9"
    };
    assert(r@ =~= seq![digit_char(d as nat)]);
    r
}

/// Appends the decimal digits of `n` to `out`.
fn write_decimal(n: usize, out: &mut String)
    ensures
        final(out)@ == old(out)@ + decimal(n as nat),
    decreases n,
{
    if n >= 10 {
        write_decimal(n / 10, out);
    }
    out.append(digit_text(n % 10));
    assert(out@ =~= old(out)@ + decimal(n as nat)) by {
        if n >= 10 {
            assert(decimal(n as nat) == decimal((n / 10) as nat).push(digit_char((n % 10) as nat)));
        }
    }
}

/// Label of an aggregated price that names how many submissions went into it.
pub fn count_label(n: usize) -> (r: String)
    ensures
        r@ == count_label_of(n as nat),
{
    let mut r = String::new();
    write_decimal(n, &mut r);
    r.append(" oracles");
    assert(r@ =~= count_label_of(n as nat));
    r
}

/// Combines a batch of submissions for `token` into its price record at time `now`.
pub fn aggregate(token: &String, batch: &Vec<Submission>, now: u64) -> (r: PriceData)
    ensures
        aggregate_spec(token@, batch@, now, r),
{
    let prices = prices_of_batch(batch);
    let med = median(&prices);
    let price = mean(&prices);
    PriceData {
        token: token.clone(),
        price,
        timestamp: now,
        source: count_label(batch.len()),
        network: String::from_str("Multi-Oracle"),
        median: med,
        twap: price,
        vwap: price,
    }
}

} // verus!
