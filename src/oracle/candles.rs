use vstd::prelude::*;

use crate::oracle::types::Candle;

verus! {

/// Most candles kept per token and interval.
pub const CANDLE_CAPACITY: usize = 1000;

/// The last `n` elements of `s` (all of them when there are no more than `n`).
pub open spec fn keep_last<T>(s: Seq<T>, n: nat) -> Seq<T> {
    if s.len() > n {
        s.subrange(s.len() - n, s.len() as int)
    } else {
        s
    }
}

/// A candle series after appending `c`: the oldest candles are dropped until at most
/// `CANDLE_CAPACITY` remain.
pub open spec fn capped_push(s: Seq<Candle>, c: Candle) -> Seq<Candle> {
    keep_last(s.push(c), CANDLE_CAPACITY as nat)
}

/// Appends `candle` at the tail and evicts from the head down to the capacity.
pub fn append_capped(series: &mut Vec<Candle>, candle: Candle)
    ensures
        final(series)@ == capped_push(old(series)@, candle),
        final(series)@.len() <= CANDLE_CAPACITY,
{
    series.push(candle);
    let n = series.len();
    if n > CANDLE_CAPACITY {
        let tail = series.split_off(n - CANDLE_CAPACITY);
        *series = tail;
    }
}

/// A series never grows past the capacity, and appending to a full series evicts exactly the
/// oldest candle while the remaining ones keep their order.
pub proof fn lemma_full_series_evicts_oldest(s: Seq<Candle>, c: Candle)
    ensures
        capped_push(s, c).len() <= CANDLE_CAPACITY,
        s.len() == CANDLE_CAPACITY ==> capped_push(s, c) == s.drop_first().push(c),
{
    if s.len() == CANDLE_CAPACITY {
        assert(capped_push(s, c) =~= s.drop_first().push(c));
    }
}

} // verus!
