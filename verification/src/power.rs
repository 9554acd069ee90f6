//! From energy counters to power: successive snapshots of the per-domain
//! counters become one power sample per pair of neighbours, a counter that
//! wrapped around at its ceiling being corrected.

use crate::model::{RaplData, RaplRecord};
use crate::rapl::RAPL_Readings;
use vstd::prelude::*;

verus! {

/// Why a sequence of snapshots cannot be converted.
#[derive(Debug, Clone, Copy, PartialEq, Eq)]
pub enum ConversionError {
    /// A snapshot does not list the domains of the first snapshot, in its
    /// order.
    DomainMismatch,
    /// A snapshot is not later than the one before it.
    TimeNotIncreasing,
    /// A counter fell although the earlier value lies above the ceiling, so
    /// no wraparound explains the fall.
    CounterAboveCeiling,
}

/// The energy used between two readings of one counter, in microjoules. A
/// counter that fell has wrapped around at `ceiling`.
pub open spec fn energy_delta(previous: u64, current: u64, ceiling: u64) -> int {
    if current < previous {
        ceiling - previous + current
    } else {
        current - previous
    }
}

/// The moment halfway between two timestamps: the later one less half
/// their distance, rounded down.
pub open spec fn midpoint(previous: i64, current: i64) -> int {
    current - (current - previous) / 2
}

/// The power between two readings taken `time_delta_ms` apart: microjoules
/// by milliseconds, rounded down.
pub open spec fn power_watts(previous: u64, current: u64, ceiling: u64, time_delta_ms: int) -> int
    recommends
        time_delta_ms > 0,
{
    energy_delta(previous, current, ceiling) / time_delta_ms
}

/// Whether `b` lists the domains of `a`, in the same order.
pub open spec fn same_domains(a: RAPL_Readings, b: RAPL_Readings) -> bool {
    &&& a.readings@.len() == b.readings@.len()
    &&& forall|d: int|
        0 <= d < a.readings@.len() ==> (#[trigger] a.readings@[d]).domain@ == b.readings@[d].domain@
}

/// Whether the counter of domain `d` fell from a value above the ceiling.
pub open spec fn fell_above_ceiling(
    previous: RAPL_Readings,
    current: RAPL_Readings,
    ceiling: u64,
    d: int,
) -> bool {
    &&& current.readings@[d].reading < previous.readings@[d].reading
    &&& previous.readings@[d].reading > ceiling
}

/// What is wrong with the snapshot `current` that follows `previous`, if
/// anything; `first` is the first snapshot of the sequence.
pub open spec fn pair_error(
    first: RAPL_Readings,
    previous: RAPL_Readings,
    current: RAPL_Readings,
    ceiling: u64,
) -> Option<ConversionError> {
    if !same_domains(first, current) {
        Some(ConversionError::DomainMismatch)
    } else if current.timestamp <= previous.timestamp {
        Some(ConversionError::TimeNotIncreasing)
    } else if exists|d: int|
        0 <= d < current.readings@.len() && fell_above_ceiling(previous, current, ceiling, d) {
        Some(ConversionError::CounterAboveCeiling)
    } else {
        None
    }
}

/// The error of the first faulty snapshot at or after index `i`, if any.
pub open spec fn first_error(stats: Seq<RAPL_Readings>, ceiling: u64, i: int) -> Option<
    ConversionError,
>
    decreases stats.len() - i,
{
    if 1 <= i < stats.len() {
        match pair_error(stats[0], stats[i - 1], stats[i], ceiling) {
            Some(e) => Some(e),
            None => first_error(stats, ceiling, i + 1),
        }
    } else {
        None
    }
}

/// The error that stops the conversion of `stats`, if any: that of its
/// first faulty snapshot.
pub open spec fn conversion_error(stats: Seq<RAPL_Readings>, ceiling: u64) -> Option<
    ConversionError,
> {
    first_error(stats, ceiling, 1)
}

/// Whether `data` is the power of domain `d` between two snapshots.
pub open spec fn is_domain_power(
    data: RaplData,
    previous: RAPL_Readings,
    current: RAPL_Readings,
    ceiling: u64,
    d: int,
) -> bool {
    &&& data.domain@ == current.readings@[d].domain@
    &&& data.power_watts == power_watts(
        previous.readings@[d].reading,
        current.readings@[d].reading,
        ceiling,
        current.timestamp - previous.timestamp,
    )
}

/// Whether `sample` is the power sample between two snapshots: stamped
/// with their midpoint, one entry per domain in the snapshots' order.
pub open spec fn is_power_sample(
    sample: RaplRecord,
    previous: RAPL_Readings,
    current: RAPL_Readings,
    ceiling: u64,
) -> bool {
    &&& sample.timestamp == midpoint(previous.timestamp, current.timestamp)
    &&& sample.data@.len() == current.readings@.len()
    &&& forall|d: int|
        0 <= d < sample.data@.len() ==> is_domain_power(
            #[trigger] sample.data@[d],
            previous,
            current,
            ceiling,
            d,
        )
}

/// Tells whether `b` lists the domains of `a`, in the same order.
fn has_same_domains(a: &RAPL_Readings, b: &RAPL_Readings) -> (r: bool)
    ensures
        r == same_domains(*a, *b),
{
    if a.readings.len() != b.readings.len() {
        return false;
    }
    let mut d: usize = 0;
    while d < a.readings.len()
        invariant
            a.readings@.len() == b.readings@.len(),
            d <= a.readings@.len(),
            forall|k: int|
                0 <= k < d ==> (#[trigger] a.readings@[k]).domain@ == b.readings@[k].domain@,
        decreases a.readings@.len() - d,
    {
        if a.readings[d].domain != b.readings[d].domain {
            return false;
        }
        d += 1;
    }
    true
}

/// The power samples between the neighbours of `stats`, the counters
/// wrapping around at `max_energy_uj`. Fewer than two snapshots give no
/// sample. Every snapshot must list the domains of the first and be later
/// than the one before it.
pub fn convert_energy_to_power(stats: &[RAPL_Readings], max_energy_uj: u64) -> (r: Result<
    Vec<RaplRecord>,
    ConversionError,
>)
    ensures
        match conversion_error(stats@, max_energy_uj) {
            Some(e) => r == Err::<Vec<RaplRecord>, ConversionError>(e),
            None => r.is_ok(),
        },
        r.is_ok() && stats@.len() < 2 ==> r.unwrap()@.len() == 0,
        r.is_ok() && stats@.len() >= 1 ==> r.unwrap()@.len() == stats@.len() - 1,
        r.is_ok() ==> forall|i: int|
            0 <= i < r.unwrap()@.len() ==> is_power_sample(
                #[trigger] r.unwrap()@[i],
                stats@[i],
                stats@[i + 1],
                max_energy_uj,
            ),
        r.is_ok() ==> forall|i: int|
            0 <= i < r.unwrap()@.len() ==> stats@[i].timestamp < (#[trigger] r.unwrap()@[i]).timestamp
                <= stats@[i + 1].timestamp,
{
    let n: usize = stats.len();
    let mut out: Vec<RaplRecord> = Vec::new();
    if n < 2 {
        return Ok(out);
    }
    let mut i: usize = 1;
    while i < n
        invariant
            n == stats@.len(),
            1 <= i <= n,
            out@.len() == i - 1,
            first_error(stats@, max_energy_uj, i as int) == conversion_error(stats@, max_energy_uj),
            forall|k: int|
                1 <= k < i ==> same_domains(stats@[0], #[trigger] stats@[k]),
            forall|k: int|
                0 <= k < out@.len() ==> is_power_sample(
                    #[trigger] out@[k],
                    stats@[k],
                    stats@[k + 1],
                    max_energy_uj,
                ),
            forall|k: int|
                0 <= k < out@.len() ==> stats@[k].timestamp < (#[trigger] out@[k]).timestamp
                    <= stats@[k + 1].timestamp,
        decreases n - i,
    {
        let previous: &RAPL_Readings = &stats[i - 1];
        let current: &RAPL_Readings = &stats[i];
        if !has_same_domains(&stats[0], current) {
            return Err(ConversionError::DomainMismatch);
        }
        assert(same_domains(stats@[0], *previous)) by {
            if i == 1 {
                assert(*previous == stats@[0]);
            }
        }
        if current.timestamp <= previous.timestamp {
            return Err(ConversionError::TimeNotIncreasing);
        }
        let delta: i128 = current.timestamp as i128 - previous.timestamp as i128;
        let half: i128 = delta / 2;
        let middle: i64 = (current.timestamp as i128 - half) as i64;
        let delta_ms: u64 = delta as u64;
        let n_domains: usize = current.readings.len();
        let mut data: Vec<RaplData> = Vec::new();
        let mut d: usize = 0;
        while d < n_domains
            invariant
                n_domains == current.readings@.len(),
                n_domains == previous.readings@.len(),
                d <= n_domains,
                n == stats@.len(),
                1 <= i < n,
                *previous == stats@[i - 1],
                *current == stats@[i as int],
                same_domains(stats@[0], *current),
                previous.timestamp < current.timestamp,
                first_error(stats@, max_energy_uj, i as int) == conversion_error(
                    stats@,
                    max_energy_uj,
                ),
                delta_ms > 0,
                delta_ms == current.timestamp - previous.timestamp,
                data@.len() == d,
                forall|k: int|
                    0 <= k < d ==> !fell_above_ceiling(*previous, *current, max_energy_uj, k),
                forall|k: int|
                    0 <= k < d ==> is_domain_power(
                        #[trigger] data@[k],
                        *previous,
                        *current,
                        max_energy_uj,
                        k,
                    ),
            decreases n_domains - d,
        {
            let before: u64 = previous.readings[d].reading;
            let now: u64 = current.readings[d].reading;
            let energy: u64 = if now < before {
                if before > max_energy_uj {
                    assert(fell_above_ceiling(*previous, *current, max_energy_uj, d as int));
                    return Err(ConversionError::CounterAboveCeiling);
                }
                max_energy_uj - before + now
            } else {
                now - before
            };
            data.push(
                RaplData { domain: current.readings[d].domain.clone(), power_watts: energy / delta_ms },
            );
            d += 1;
        }
        assert(pair_error(stats@[0], *previous, *current, max_energy_uj).is_none());
        out.push(RaplRecord { timestamp: middle, data });
        i += 1;
    }
    Ok(out)
}

/// Without a wraparound the power is the rise of the counter by the time
/// between the readings, rounded down, whatever the ceiling.
pub proof fn lemma_power_without_wraparound(
    previous: u64,
    current: u64,
    ceiling: u64,
    time_delta_ms: int,
)
    requires
        previous <= current,
        time_delta_ms > 0,
    ensures
        power_watts(previous, current, ceiling, time_delta_ms) == (current - previous)
            / time_delta_ms,
{
}

/// In a power sample, a domain whose counter did not fall between the two
/// snapshots has the rise of the counter by the time between them, rounded
/// down, whatever the ceiling.
pub proof fn lemma_sample_without_wraparound(
    sample: RaplRecord,
    previous: RAPL_Readings,
    current: RAPL_Readings,
    ceiling: u64,
    d: int,
)
    requires
        is_power_sample(sample, previous, current, ceiling),
        0 <= d < sample.data@.len(),
        previous.readings@[d].reading <= current.readings@[d].reading,
    ensures
        sample.data@[d].power_watts == (current.readings@[d].reading
            - previous.readings@[d].reading) / (current.timestamp - previous.timestamp),
{
    assert(is_domain_power(sample.data@[d], previous, current, ceiling, d));
}

/// A counter that stood `back` below the ceiling and wrapped around to
/// `current` has used `back + current`, wherever the ceiling lies.
pub proof fn lemma_wraparound_delta(ceiling: u64, back: u64, current: u64)
    requires
        back <= ceiling,
        current < ceiling - back,
    ensures
        energy_delta((ceiling - back) as u64, current, ceiling) == back + current,
{
}

/// The midpoint of two timestamps lies after the earlier one and not after
/// the later one; it lies strictly between them once they are two or more
/// milliseconds apart.
pub proof fn lemma_midpoint_between(previous: i64, current: i64)
    requires
        previous < current,
    ensures
        previous < midpoint(previous, current) <= current,
        current - previous >= 2 ==> midpoint(previous, current) < current,
{
}

} // verus!
