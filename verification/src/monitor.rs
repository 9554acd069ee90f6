//! The two sampling monitors, as the decisions they take between one
//! outside step and the next. The caller checks for cancellation, reads the
//! hardware and sleeps; the monitor says which of these comes next and
//! keeps the samples.

use crate::bmc::{BMCStats, BMC_CapSetting};
use crate::clock::now_millis;
use crate::model::RaplRecord;
use crate::power::{
    conversion_error, convert_energy_to_power, is_power_sample, ConversionError,
};
use crate::rapl::RAPL_Readings;
use vstd::prelude::*;

verus! {

/// The pause between the two commands of one poll of the controller, in
/// milliseconds.
pub const BMC_INTER_COMMAND_SLEEP_MILLIS: u64 = 500;

/// The pause between two polls of the controller, in milliseconds.
pub const BMC_POLL_INTERVAL_MILLIS: u64 = 500;

/// How often the energy counters are read in a second.
pub const POLL_FREQ_HZ: u64 = 2;

/// The pause between two readings of the energy counters, in milliseconds.
pub const RAPL_POLL_INTERVAL_MILLIS: u64 = 1000 / POLL_FREQ_HZ;

/// How long after the end of the load the energy monitor is told to stop,
/// in seconds.
pub const RAPL_END_DELAY_SECS: u64 = 1;

/// The most snapshots that room is made for ahead of time. A longer run
/// grows its store as the snapshots come.
pub const RAPL_RESERVE_LIMIT: u64 = 65_536;

/// The outside step that a monitor asks for next.
#[derive(Debug, Clone, Copy, PartialEq, Eq, Structural)]
pub enum MonitorAction {
    /// Look, without waiting, whether cancellation was signalled.
    CheckCancellation,
    /// Read the instantaneous power from the controller.
    ReadPower,
    /// Read the cap settings from the controller.
    ReadCapSettings,
    /// Read every energy counter.
    ReadEnergy,
    /// Sleep for so many milliseconds.
    SleepMillis(u64),
    /// Stop: the samples are complete.
    Finish,
}

/// What the monitor of the controller waits for.
#[derive(Debug, Clone, Copy, PartialEq, Eq)]
pub enum BmcStage {
    /// Not started yet.
    Idle,
    /// The answer to a check for cancellation.
    Checking,
    /// The instantaneous power.
    ReadingPower,
    /// The end of the pause between the commands; the power is kept.
    Settling(u64),
    /// The cap settings; the power is kept.
    ReadingCap(u64),
    /// The end of the pause between polls.
    Resting,
    /// Nothing: the monitor has stopped.
    Finished,
}

/// The outcome of an outside step of the monitor of the controller.
#[derive(Debug, Clone, Copy, PartialEq, Eq)]
pub enum BmcEvent {
    /// The monitor was launched.
    Started,
    /// Whether cancellation was signalled.
    Cancellation(bool),
    /// The instantaneous power, in watts.
    Power(u64),
    /// The cap settings.
    CapSettings(BMC_CapSetting),
    /// A sleep is over.
    Slept,
}

/// The monitor of the controller: what it waits for and the samples taken
/// so far, in order.
#[derive(Debug)]
pub struct BmcMonitor {
    pub stage: BmcStage,
    pub samples: Vec<BMCStats>,
}

/// The outside step that the monitor of the controller asks for while it
/// is in `stage`.
pub open spec fn bmc_action(stage: BmcStage) -> MonitorAction {
    match stage {
        BmcStage::Idle => MonitorAction::CheckCancellation,
        BmcStage::Checking => MonitorAction::CheckCancellation,
        BmcStage::ReadingPower => MonitorAction::ReadPower,
        BmcStage::Settling(_) => MonitorAction::SleepMillis(BMC_INTER_COMMAND_SLEEP_MILLIS),
        BmcStage::ReadingCap(_) => MonitorAction::ReadCapSettings,
        BmcStage::Resting => MonitorAction::SleepMillis(BMC_POLL_INTERVAL_MILLIS),
        BmcStage::Finished => MonitorAction::Finish,
    }
}

/// The stage that follows `stage` on `event`. An event that the stage does
/// not wait for changes nothing.
pub open spec fn bmc_next(stage: BmcStage, event: BmcEvent) -> BmcStage {
    match (stage, event) {
        (BmcStage::Idle, BmcEvent::Started) => BmcStage::Checking,
        (BmcStage::Checking, BmcEvent::Cancellation(true)) => BmcStage::Finished,
        (BmcStage::Checking, BmcEvent::Cancellation(false)) => BmcStage::ReadingPower,
        (BmcStage::ReadingPower, BmcEvent::Power(power)) => BmcStage::Settling(power),
        (BmcStage::Settling(power), BmcEvent::Slept) => BmcStage::ReadingCap(power),
        (BmcStage::ReadingCap(_), BmcEvent::CapSettings(_)) => BmcStage::Resting,
        (BmcStage::Resting, BmcEvent::Slept) => BmcStage::Checking,
        _ => stage,
    }
}

/// The samples after `event` came in `stage` at the moment `now`: the cap
/// settings complete a sample, whose power was read before them.
pub open spec fn bmc_samples(samples: Seq<BMCStats>, stage: BmcStage, event: BmcEvent, now: i64)
    -> Seq<BMCStats> {
    match (stage, event) {
        (BmcStage::ReadingCap(power), BmcEvent::CapSettings(cap)) => samples.push(
            BMCStats::taken_at(now, power, cap),
        ),
        _ => samples,
    }
}

/// How many events lie between `stage` and the end once cancellation is
/// signalled, every step going as asked.
pub open spec fn bmc_events_to_finish(stage: BmcStage) -> nat {
    match stage {
        BmcStage::Finished => 0,
        BmcStage::Checking => 1,
        BmcStage::Idle => 2,
        BmcStage::Resting => 2,
        BmcStage::ReadingCap(_) => 3,
        BmcStage::Settling(_) => 4,
        BmcStage::ReadingPower => 5,
    }
}

/// Whether `event` is an outcome of the step that `stage` asks for, with
/// cancellation signalled.
pub open spec fn bmc_awaits_when_cancelled(stage: BmcStage, event: BmcEvent) -> bool {
    match (stage, event) {
        (BmcStage::Idle, BmcEvent::Started) => true,
        (BmcStage::Checking, BmcEvent::Cancellation(true)) => true,
        (BmcStage::ReadingPower, BmcEvent::Power(_)) => true,
        (BmcStage::Settling(_), BmcEvent::Slept) => true,
        (BmcStage::ReadingCap(_), BmcEvent::CapSettings(_)) => true,
        (BmcStage::Resting, BmcEvent::Slept) => true,
        _ => false,
    }
}

impl BmcMonitor {
    /// A monitor that was not started yet and holds no sample.
    pub fn new() -> (r: Self)
        ensures
            r.stage == BmcStage::Idle,
            r.samples@.len() == 0,
    {
        Self { stage: BmcStage::Idle, samples: Vec::new() }
    }

    /// Takes in `event`, which came at the moment `now`, and says what to
    /// do next.
    pub fn step(self, event: BmcEvent, now: i64) -> (r: (Self, MonitorAction))
        ensures
            r.0.stage == bmc_next(self.stage, event),
            r.0.samples@ == bmc_samples(self.samples@, self.stage, event, now),
            r.1 == bmc_action(r.0.stage),
    {
        let mut samples: Vec<BMCStats> = self.samples;
        let stage: BmcStage = match (self.stage, event) {
            (BmcStage::Idle, BmcEvent::Started) => BmcStage::Checking,
            (BmcStage::Checking, BmcEvent::Cancellation(true)) => BmcStage::Finished,
            (BmcStage::Checking, BmcEvent::Cancellation(false)) => BmcStage::ReadingPower,
            (BmcStage::ReadingPower, BmcEvent::Power(power)) => BmcStage::Settling(power),
            (BmcStage::Settling(power), BmcEvent::Slept) => BmcStage::ReadingCap(power),
            (BmcStage::ReadingCap(power), BmcEvent::CapSettings(cap)) => {
                samples.push(BMCStats::at(now, power, &cap));
                BmcStage::Resting
            },
            (BmcStage::Resting, BmcEvent::Slept) => BmcStage::Checking,
            (stage, _) => stage,
        };
        let action: MonitorAction = match stage {
            BmcStage::Idle => MonitorAction::CheckCancellation,
            BmcStage::Checking => MonitorAction::CheckCancellation,
            BmcStage::ReadingPower => MonitorAction::ReadPower,
            BmcStage::Settling(_) => MonitorAction::SleepMillis(BMC_INTER_COMMAND_SLEEP_MILLIS),
            BmcStage::ReadingCap(_) => MonitorAction::ReadCapSettings,
            BmcStage::Resting => MonitorAction::SleepMillis(BMC_POLL_INTERVAL_MILLIS),
            BmcStage::Finished => MonitorAction::Finish,
        };
        (Self { stage, samples }, action)
    }
}

/// One decision of the monitor of the controller: takes in `event` and
/// says what to do next. A sample that `event` completes is stamped with
/// the time of the call, whatever the clock says that is.
pub fn monitor_bmc(monitor: BmcMonitor, event: BmcEvent) -> (r: (BmcMonitor, MonitorAction))
    ensures
        r.0.stage == bmc_next(monitor.stage, event),
        exists|now: i64|
            r.0.samples@ == #[trigger] bmc_samples(monitor.samples@, monitor.stage, event, now),
        r.1 == bmc_action(r.0.stage),
{
    let now: i64 = now_millis();
    let r = monitor.step(event, now);
    assert(r.0.samples@ == bmc_samples(monitor.samples@, monitor.stage, event, now));
    r
}

/// Once cancellation is signalled, every step that goes as asked brings
/// the monitor of the controller one event closer to its end, which is at
/// most five events away, and at most the sample under way is completed:
/// no further poll is begun.
pub proof fn lemma_bmc_cancellation_stops(
    samples: Seq<BMCStats>,
    stage: BmcStage,
    event: BmcEvent,
    now: i64,
)
    requires
        bmc_awaits_when_cancelled(stage, event),
    ensures
        bmc_events_to_finish(stage) <= 5,
        bmc_events_to_finish(bmc_next(stage, event)) == bmc_events_to_finish(stage) - 1,
        bmc_events_to_finish(stage) <= 2 ==> bmc_samples(samples, stage, event, now) == samples,
        bmc_samples(samples, stage, event, now).len() <= samples.len() + 1,
        bmc_next(stage, event) != BmcStage::ReadingPower,
        bmc_events_to_finish(stage) == 0 <==> stage == BmcStage::Finished,
{
}

/// What the monitor of the energy counters waits for.
#[derive(Debug, Clone, Copy, PartialEq, Eq, Structural)]
pub enum RaplStage {
    /// Not started yet.
    Idle,
    /// The answer to a check for cancellation.
    Checking,
    /// A snapshot of the counters.
    Reading,
    /// The end of the pause between readings.
    Resting,
    /// Nothing: the monitor has stopped.
    Finished,
}

/// The outcome of an outside step of the monitor of the energy counters.
#[derive(Debug)]
pub enum RaplEvent {
    /// The monitor was launched.
    Started,
    /// Whether cancellation was signalled.
    Cancellation(bool),
    /// A snapshot of the counters.
    Energy(RAPL_Readings),
    /// A sleep is over.
    Slept,
}

/// The monitor of the energy counters: what it waits for, the snapshots
/// taken so far, in order, and how many it was made to expect.
#[derive(Debug)]
pub struct RaplMonitor {
    pub stage: RaplStage,
    pub snapshots: Vec<RAPL_Readings>,
    pub expected_snapshots: u64,
}

/// The outside step that the monitor of the energy counters asks for while
/// it is in `stage`.
pub open spec fn rapl_action(stage: RaplStage) -> MonitorAction {
    match stage {
        RaplStage::Idle => MonitorAction::CheckCancellation,
        RaplStage::Checking => MonitorAction::CheckCancellation,
        RaplStage::Reading => MonitorAction::ReadEnergy,
        RaplStage::Resting => MonitorAction::SleepMillis(RAPL_POLL_INTERVAL_MILLIS),
        RaplStage::Finished => MonitorAction::Finish,
    }
}

/// The stage that follows `stage` on `event`. An event that the stage does
/// not wait for changes nothing.
pub open spec fn rapl_next(stage: RaplStage, event: RaplEvent) -> RaplStage {
    match (stage, event) {
        (RaplStage::Idle, RaplEvent::Started) => RaplStage::Checking,
        (RaplStage::Checking, RaplEvent::Cancellation(true)) => RaplStage::Finished,
        (RaplStage::Checking, RaplEvent::Cancellation(false)) => RaplStage::Reading,
        (RaplStage::Reading, RaplEvent::Energy(_)) => RaplStage::Resting,
        (RaplStage::Resting, RaplEvent::Slept) => RaplStage::Checking,
        _ => stage,
    }
}

/// The snapshots after `event` came in `stage`: a snapshot that was waited
/// for is kept, behind the earlier ones.
pub open spec fn rapl_snapshots(snapshots: Seq<RAPL_Readings>, stage: RaplStage, event: RaplEvent)
    -> Seq<RAPL_Readings> {
    match (stage, event) {
        (RaplStage::Reading, RaplEvent::Energy(snapshot)) => snapshots.push(snapshot),
        _ => snapshots,
    }
}

/// How many snapshots a monitor takes in `runtime_secs` and the delay
/// after them, at most the largest 64-bit number.
pub open spec fn expected_snapshots(runtime_secs: u64) -> int {
    let wanted = (runtime_secs + RAPL_END_DELAY_SECS) * POLL_FREQ_HZ;
    if wanted <= u64::MAX {
        wanted
    } else {
        u64::MAX as int
    }
}

/// How many events lie between `stage` and the end once cancellation is
/// signalled, every step going as asked.
pub open spec fn rapl_events_to_finish(stage: RaplStage) -> nat {
    match stage {
        RaplStage::Finished => 0,
        RaplStage::Checking => 1,
        RaplStage::Idle => 2,
        RaplStage::Resting => 2,
        RaplStage::Reading => 3,
    }
}

/// Whether `event` is an outcome of the step that `stage` asks for, with
/// cancellation signalled.
pub open spec fn rapl_awaits_when_cancelled(stage: RaplStage, event: RaplEvent) -> bool {
    match (stage, event) {
        (RaplStage::Idle, RaplEvent::Started) => true,
        (RaplStage::Checking, RaplEvent::Cancellation(true)) => true,
        (RaplStage::Reading, RaplEvent::Energy(_)) => true,
        (RaplStage::Resting, RaplEvent::Slept) => true,
        _ => false,
    }
}

impl RaplMonitor {
    /// A monitor that was not started yet, holds no snapshot, and expects
    /// to run for `runtime_secs` and the delay after them. Room is made
    /// ahead of time for the snapshots expected, up to
    /// `RAPL_RESERVE_LIMIT` of them; the expectation ends nothing.
    pub fn new(runtime_secs: u64) -> (r: Self)
        ensures
            r.stage == RaplStage::Idle,
            r.snapshots@.len() == 0,
            r.expected_snapshots == expected_snapshots(runtime_secs),
    {
        let expected: u64 = match runtime_secs.checked_add(RAPL_END_DELAY_SECS) {
            None => u64::MAX,
            Some(secs) => match secs.checked_mul(POLL_FREQ_HZ) {
                None => u64::MAX,
                Some(count) => count,
            },
        };
        let room: usize = if expected <= RAPL_RESERVE_LIMIT {
            expected as usize
        } else {
            RAPL_RESERVE_LIMIT as usize
        };
        Self {
            stage: RaplStage::Idle,
            snapshots: Vec::with_capacity(room),
            expected_snapshots: expected,
        }
    }

    /// The power samples between the snapshots taken, the counters
    /// wrapping around at `max_energy_uj`.
    pub fn power_samples(&self, max_energy_uj: u64) -> (r: Result<Vec<RaplRecord>, ConversionError>)
        ensures
            match conversion_error(self.snapshots@, max_energy_uj) {
                Some(e) => r == Err::<Vec<RaplRecord>, ConversionError>(e),
                None => r.is_ok(),
            },
            r.is_ok() && self.snapshots@.len() < 2 ==> r.unwrap()@.len() == 0,
            r.is_ok() && self.snapshots@.len() >= 1 ==> r.unwrap()@.len() == self.snapshots@.len()
                - 1,
            r.is_ok() ==> forall|i: int|
                0 <= i < r.unwrap()@.len() ==> is_power_sample(
                    #[trigger] r.unwrap()@[i],
                    self.snapshots@[i],
                    self.snapshots@[i + 1],
                    max_energy_uj,
                ),
    {
        convert_energy_to_power(self.snapshots.as_slice(), max_energy_uj)
    }
}

/// One decision of the monitor of the energy counters: takes in `event`
/// and says what to do next.
pub fn monitor_rapl(monitor: RaplMonitor, event: RaplEvent) -> (r: (RaplMonitor, MonitorAction))
    ensures
        r.0.stage == rapl_next(monitor.stage, event),
        r.0.snapshots@ == rapl_snapshots(monitor.snapshots@, monitor.stage, event),
        r.0.expected_snapshots == monitor.expected_snapshots,
        r.1 == rapl_action(r.0.stage),
{
    let mut snapshots: Vec<RAPL_Readings> = monitor.snapshots;
    let stage: RaplStage = match (monitor.stage, event) {
        (RaplStage::Idle, RaplEvent::Started) => RaplStage::Checking,
        (RaplStage::Checking, RaplEvent::Cancellation(true)) => RaplStage::Finished,
        (RaplStage::Checking, RaplEvent::Cancellation(false)) => RaplStage::Reading,
        (RaplStage::Reading, RaplEvent::Energy(snapshot)) => {
            snapshots.push(snapshot);
            RaplStage::Resting
        },
        (RaplStage::Resting, RaplEvent::Slept) => RaplStage::Checking,
        (stage, _) => stage,
    };
    let action: MonitorAction = match stage {
        RaplStage::Idle => MonitorAction::CheckCancellation,
        RaplStage::Checking => MonitorAction::CheckCancellation,
        RaplStage::Reading => MonitorAction::ReadEnergy,
        RaplStage::Resting => MonitorAction::SleepMillis(RAPL_POLL_INTERVAL_MILLIS),
        RaplStage::Finished => MonitorAction::Finish,
    };
    (RaplMonitor { stage, snapshots, expected_snapshots: monitor.expected_snapshots }, action)
}

/// Once cancellation is signalled, every step that goes as asked brings
/// the monitor of the energy counters one event closer to its end, which
/// is at most three events away, and at most the snapshot under way is
/// kept: no further reading is begun.
pub proof fn lemma_rapl_cancellation_stops(
    snapshots: Seq<RAPL_Readings>,
    stage: RaplStage,
    event: RaplEvent,
)
    requires
        rapl_awaits_when_cancelled(stage, event),
    ensures
        rapl_events_to_finish(stage) <= 3,
        rapl_events_to_finish(rapl_next(stage, event)) == rapl_events_to_finish(stage) - 1,
        rapl_events_to_finish(stage) <= 2 ==> rapl_snapshots(snapshots, stage, event) == snapshots,
        rapl_snapshots(snapshots, stage, event).len() <= snapshots.len() + 1,
        rapl_next(stage, event) != RaplStage::Reading,
        rapl_events_to_finish(stage) == 0 <==> stage == RaplStage::Finished,
{
}

} // verus!
