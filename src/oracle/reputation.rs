use vstd::prelude::*;

use crate::oracle::types::{OracleReputation, UNIT_RATIO};

verus! {

/// One step of the exponential moving average with smoothing factor 1/10, rounded to the
/// nearest unit (halves up): `prev * 0.9 + sample * 0.1`.
pub open spec fn ema(prev: u64, sample: u64) -> u64 {
    ((9 * prev + sample + 5) / 10) as u64
}

/// `x + 1`, held at the largest value.
pub open spec fn sat_inc(x: u64) -> u64 {
    if x == u64::MAX {
        x
    } else {
        (x + 1) as u64
    }
}

/// The record a provider starts from when its first metrics are recorded.
pub open spec fn initial_for_record(source: Seq<char>, r: OracleReputation) -> bool {
    &&& r.source@ == source
    &&& r.accuracy == 0
    &&& r.latency_average == 0
    &&& r.uptime == 0
    &&& r.variance == 0
    &&& r.total_updates == 0
    &&& r.last_update == 0
}

/// The record a provider starts from when its first price is submitted.
pub open spec fn initial_for_touch(source: Seq<char>, r: OracleReputation) -> bool {
    &&& r.source@ == source
    &&& r.accuracy == UNIT_RATIO
    &&& r.latency_average == 0
    &&& r.uptime == UNIT_RATIO
    &&& r.variance == 0
    &&& r.total_updates == 0
    &&& r.last_update == 0
}

/// `r` is `prev` after recording the measured metrics at time `now`.
pub open spec fn recorded(
    prev: OracleReputation,
    accuracy: u64,
    latency: u64,
    uptime: u64,
    now: u64,
    r: OracleReputation,
) -> bool {
    &&& r.source == prev.source
    &&& r.accuracy == ema(prev.accuracy, accuracy)
    &&& r.latency_average == ema(prev.latency_average, latency)
    &&& r.uptime == ema(prev.uptime, uptime)
    &&& r.variance == prev.variance
    &&& r.total_updates == sat_inc(prev.total_updates)
    &&& r.last_update == now
}

/// `r` is `prev` after a submission at time `timestamp`: counted, with no score changed.
pub open spec fn touched(prev: OracleReputation, timestamp: u64, r: OracleReputation) -> bool {
    &&& r.source == prev.source
    &&& r.accuracy == prev.accuracy
    &&& r.latency_average == prev.latency_average
    &&& r.uptime == prev.uptime
    &&& r.variance == prev.variance
    &&& r.total_updates == sat_inc(prev.total_updates)
    &&& r.last_update == timestamp
}

/// `r` is the record of `source` after a submission at `timestamp`, from its previous
/// record if it has one, else from the submission-time initial record.
pub open spec fn touched_from(
    prev: Option<OracleReputation>,
    source: Seq<char>,
    timestamp: u64,
    r: OracleReputation,
) -> bool {
    match prev {
        Some(p) => touched(p, timestamp, r),
        None => {
            &&& r.source@ == source
            &&& r.accuracy == UNIT_RATIO
            &&& r.latency_average == 0
            &&& r.uptime == UNIT_RATIO
            &&& r.variance == 0
            &&& r.total_updates == 1
            &&& r.last_update == timestamp
        },
    }
}

/// `r` is the record of `source` after measured metrics are recorded at `now`, from its
/// previous record if it has one, else from the zero record.
pub open spec fn recorded_from(
    prev: Option<OracleReputation>,
    source: Seq<char>,
    accuracy: u64,
    latency: u64,
    uptime: u64,
    now: u64,
    r: OracleReputation,
) -> bool {
    match prev {
        Some(p) => recorded(p, accuracy, latency, uptime, now, r),
        None => {
            &&& r.source@ == source
            &&& r.accuracy == ema(0, accuracy)
            &&& r.latency_average == ema(0, latency)
            &&& r.uptime == ema(0, uptime)
            &&& r.variance == 0
            &&& r.total_updates == 1
            &&& r.last_update == now
        },
    }
}

pub fn ema_step(prev: u64, sample: u64) -> (r: u64)
    ensures
        r == ema(prev, sample),
{
    let t: u128 = 9 * (prev as u128) + (sample as u128) + 5;
    (t / 10) as u64
}

pub fn initial_record(source: &String) -> (r: OracleReputation)
    ensures
        initial_for_record(source@, r),
{
    OracleReputation {
        source: source.clone(),
        accuracy: 0,
        latency_average: 0,
        uptime: 0,
        variance: 0,
        total_updates: 0,
        last_update: 0,
    }
}

pub fn initial_touch(source: &String) -> (r: OracleReputation)
    ensures
        initial_for_touch(source@, r),
{
    OracleReputation {
        source: source.clone(),
        accuracy: UNIT_RATIO,
        latency_average: 0,
        uptime: UNIT_RATIO,
        variance: 0,
        total_updates: 0,
        last_update: 0,
    }
}

/// Folds measured metrics into a record.
pub fn record(rep: &mut OracleReputation, accuracy: u64, latency: u64, uptime: u64, now: u64)
    ensures
        recorded(*old(rep), accuracy, latency, uptime, now, *final(rep)),
{
    rep.accuracy = ema_step(rep.accuracy, accuracy);
    rep.latency_average = ema_step(rep.latency_average, latency);
    rep.uptime = ema_step(rep.uptime, uptime);
    rep.total_updates = rep.total_updates.saturating_add(1);
    rep.last_update = now;
}

/// Counts a submission in a record.
pub fn touch(rep: &mut OracleReputation, timestamp: u64)
    ensures
        touched(*old(rep), timestamp, *final(rep)),
{
    rep.total_updates = rep.total_updates.saturating_add(1);
    rep.last_update = timestamp;
}

} // verus!
