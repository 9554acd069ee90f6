//! The run coordinator: what it does for one test, phase by phase. The
//! caller performs each action and reports how it went.

use crate::model::FirestarterParams;
use crate::test::{CapStep, CappingOrder, Operation, Test, TestRun, Timestamps};
use vstd::prelude::*;

verus! {

/// One thing for the caller to do.
#[derive(Debug, Clone, Copy, PartialEq, Eq)]
pub enum Action {
    /// Start polling the controller in the background.
    StartBmcMonitor,
    /// Set the cap level, in watts.
    SetCapLevel(u64),
    /// Switch capping on.
    ActivateCap,
    /// Switch capping off.
    DeactivateCap,
    /// Let the controller settle for so many milliseconds.
    PauseMillis(u64),
    /// Wait for so many seconds.
    SleepSecs(u64),
    /// Ask the remote side to generate load, without waiting for its answer.
    LaunchLoad(FirestarterParams),
    /// Wait for the remote side's answer.
    AwaitLoad,
    /// Tell the background poller to stop, and collect its samples.
    StopBmcMonitor,
}

/// Where a run stands.
#[derive(Debug, Clone, Copy, PartialEq, Eq, Structural)]
pub enum Phase {
    Idle,
    SettingPreconditions,
    Warmup,
    Capping,
    AwaitingLoadCompletion,
    Collecting,
    Done,
    /// An action failed; the run, and the suite with it, is over.
    Failed,
}

/// How the actions of a phase went.
#[derive(Debug, Clone, Copy, PartialEq, Eq, Structural)]
pub enum Event {
    /// Every action of the phase was carried out.
    Completed,
    /// A command to the controller or the remote call failed, or an answer
    /// was malformed.
    Failed,
}

/// Why a test cannot be run with the given settings.
#[derive(Debug, Clone, Copy, PartialEq, Eq)]
pub enum ConfigurationError {
    /// The test would change the cap from a level to the same level.
    CapNeutral,
    /// The step size of the ramp is zero, or the low cap lies above the
    /// high cap.
    InvalidSteps,
    /// The run time does not fit in 64 bits.
    RuntimeOverflow,
}

/// The settings of a suite of runs.
#[derive(Debug)]
pub struct Configuration {
    pub bmc_hostname: String,
    pub bmc_username: String,
    pub bmc_password: String,
    pub warmup_secs: u64,
    pub test_time_secs: u64,
    pub cap_low_watts: u64,
    pub cap_high_watts: u64,
    pub cap_step_size_watts: u64,
    pub cap_step_interval_secs: u64,
    pub stats_dir: String,
    /// When the suite started, in milliseconds since the Unix epoch.
    pub test_start_timestamp: i64,
    pub ipmi: String,
    pub setup_pause_millis: u64,
    pub agent_info_endpoint: String,
    pub agent_run_test_endpoint: String,
}

/// How far `a` and `b` lie apart.
pub open spec fn distance(a: u64, b: u64) -> int {
    if a > b {
        a - b
    } else {
        b - a
    }
}

/// The levels of a ramp from `current` towards `to` in steps of `step`:
/// a step is taken while more than one step is left, then `to` itself
/// follows.
pub open spec fn ramp_levels(current: u64, to: u64, step: u64) -> Seq<u64>
    decreases distance(current, to),
{
    if step > 0 && distance(current, to) > step {
        let next = if current > to {
            (current - step) as u64
        } else {
            (current + step) as u64
        };
        seq![next] + ramp_levels(next, to, step)
    } else {
        seq![to]
    }
}

/// The actions of a ramp through `levels`: each level is set, and a wait
/// of `interval_secs` lies between one level and the next.
pub open spec fn ramp_actions(levels: Seq<u64>, interval_secs: u64) -> Seq<Action> {
    Seq::new(
        if levels.len() == 0 {
            0
        } else {
            (2 * levels.len() - 1) as nat
        },
        |i: int|
            if i % 2 == 0 {
                Action::SetCapLevel(levels[i / 2])
            } else {
                Action::SleepSecs(interval_secs)
            },
    )
}

/// The action that performs `operation`.
pub open spec fn switch(operation: Operation) -> Action {
    match operation {
        Operation::Activate => Action::ActivateCap,
        Operation::Deactivate => Action::DeactivateCap,
    }
}

/// The action that undoes `operation`.
pub open spec fn opposite_switch(operation: Operation) -> Action {
    match operation {
        Operation::Activate => Action::DeactivateCap,
        Operation::Deactivate => Action::ActivateCap,
    }
}

/// What must hold before the load starts: the cap level and whether
/// capping is on. A pause follows each write to the controller.
pub open spec fn initial_conditions(config: Test, pause_millis: u64) -> Seq<Action> {
    let (level, activation) = match config.capping_order {
        CappingOrder::LevelBeforeActivate => (config.cap_to, opposite_switch(config.operation)),
        CappingOrder::LevelAfterActivate => (config.cap_from, switch(config.operation)),
        CappingOrder::LevelToLevel => (config.cap_from, Action::ActivateCap),
        CappingOrder::LevelToLevelActivate => (config.cap_from, Action::ActivateCap),
    };
    seq![
        Action::SetCapLevel(level),
        Action::PauseMillis(pause_millis),
        activation,
        Action::PauseMillis(pause_millis),
    ]
}

/// The cap operation proper, performed once the warm-up is over.
pub open spec fn cap_operation(config: Test, step_size: u64, interval_secs: u64) -> Seq<Action> {
    match config.capping_order {
        CappingOrder::LevelBeforeActivate => seq![switch(config.operation)],
        CappingOrder::LevelAfterActivate => match config.step {
            CapStep::OneShot => seq![Action::SetCapLevel(config.cap_to)],
            CapStep::Step => ramp_actions(
                ramp_levels(config.cap_from, config.cap_to, step_size),
                interval_secs,
            ),
        },
        CappingOrder::LevelToLevel => seq![Action::SetCapLevel(config.cap_to)],
        CappingOrder::LevelToLevelActivate => seq![
            Action::SetCapLevel(config.cap_to),
            Action::ActivateCap,
        ],
    }
}

/// The time that a ramp between the two caps is given: one interval for
/// each step that the distance holds, part steps counted in full, and one
/// more. None where the step size is zero, the low cap lies above the high
/// one, or the time does not fit in 64 bits.
pub open spec fn step_time(low: u64, high: u64, step_size: u64, interval_secs: u64) -> Option<u64> {
    if step_size == 0 || low > high {
        None
    } else {
        let steps = (high - low + step_size - 1) / (step_size as int);
        if (steps + 1) * interval_secs <= u64::MAX {
            Some(((steps + 1) * interval_secs) as u64)
        } else {
            None
        }
    }
}

/// The time that the load runs for a test: warm-up and test time, and the
/// ramp's time on top for a test in step mode. None where it does not fit
/// in 64 bits.
pub open spec fn run_time(warmup_secs: u64, test_time_secs: u64, step: CapStep, ramp_secs: u64)
    -> Option<u64> {
    let extra: int = if step == CapStep::Step {
        ramp_secs as int
    } else {
        0
    };
    if warmup_secs + test_time_secs + extra <= u64::MAX {
        Some((warmup_secs + test_time_secs + extra) as u64)
    } else {
        None
    }
}

/// The phase that follows `phase` on `event`. A failure ends the run from
/// any phase; a finished run stays finished.
pub open spec fn next_phase(phase: Phase, event: Event) -> Phase {
    match phase {
        Phase::Done => Phase::Done,
        Phase::Failed => Phase::Failed,
        _ => match event {
            Event::Failed => Phase::Failed,
            Event::Completed => match phase {
                Phase::Idle => Phase::SettingPreconditions,
                Phase::SettingPreconditions => Phase::Warmup,
                Phase::Warmup => Phase::Capping,
                Phase::Capping => Phase::AwaitingLoadCompletion,
                Phase::AwaitingLoadCompletion => Phase::Collecting,
                _ => Phase::Done,
            },
        },
    }
}

/// The levels of a ramp from `cap_from` to `cap_to` in steps of
/// `step_size`, in the order in which they are set.
pub fn step_ramp_levels(cap_from: u64, cap_to: u64, step_size: u64) -> (r: Vec<u64>)
    requires
        step_size > 0,
    ensures
        r@ == ramp_levels(cap_from, cap_to, step_size),
{
    let mut r: Vec<u64> = Vec::new();
    let mut current: u64 = cap_from;
    assert(r@ + ramp_levels(current, cap_to, step_size) =~= ramp_levels(
        cap_from,
        cap_to,
        step_size,
    ));
    loop
        invariant
            step_size > 0,
            r@ + ramp_levels(current, cap_to, step_size) == ramp_levels(cap_from, cap_to, step_size),
        ensures
            distance(current, cap_to) <= step_size,
        decreases distance(current, cap_to),
    {
        let left: u64 = if current > cap_to {
            current - cap_to
        } else {
            cap_to - current
        };
        if left <= step_size {
            break ;
        }
        let next: u64 = if current > cap_to {
            current - step_size
        } else {
            current + step_size
        };
        let ghost before = r@;
        r.push(next);
        assert(before.push(next) + ramp_levels(next, cap_to, step_size) =~= before + ramp_levels(
            current,
            cap_to,
            step_size,
        ));
        current = next;
    }
    let ghost before = r@;
    r.push(cap_to);
    assert(before.push(cap_to) =~= before + ramp_levels(current, cap_to, step_size));
    r
}

/// The actions that establish what must hold before the load starts.
pub fn set_initial_conditions(config: &Test, pause_millis: u64) -> (r: Vec<Action>)
    ensures
        r@ == initial_conditions(*config, pause_millis),
{
    let activate_now: bool = match config.capping_order {
        CappingOrder::LevelBeforeActivate => match config.operation {
            Operation::Activate => false,
            Operation::Deactivate => true,
        },
        CappingOrder::LevelAfterActivate => match config.operation {
            Operation::Activate => true,
            Operation::Deactivate => false,
        },
        CappingOrder::LevelToLevel => true,
        CappingOrder::LevelToLevelActivate => true,
    };
    let level: u64 = match config.capping_order {
        CappingOrder::LevelBeforeActivate => config.cap_to,
        _ => config.cap_from,
    };
    let mut r: Vec<Action> = Vec::new();
    r.push(Action::SetCapLevel(level));
    r.push(Action::PauseMillis(pause_millis));
    r.push(
        if activate_now {
            Action::ActivateCap
        } else {
            Action::DeactivateCap
        },
    );
    r.push(Action::PauseMillis(pause_millis));
    assert(r@ =~= initial_conditions(*config, pause_millis));
    r
}

/// The actions of the cap operation proper. Only a ramp reads the step
/// size, which must then be more than zero, or the ramp would not end.
pub fn do_cap_operation(config: &Test, step_size: u64, interval_secs: u64) -> (r: Vec<Action>)
    requires
        config.capping_order == CappingOrder::LevelAfterActivate && config.step == CapStep::Step
            ==> step_size > 0,
    ensures
        r@ == cap_operation(*config, step_size, interval_secs),
{
    let mut r: Vec<Action> = Vec::new();
    match config.capping_order {
        CappingOrder::LevelBeforeActivate => {
            match config.operation {
                Operation::Activate => r.push(Action::ActivateCap),
                Operation::Deactivate => r.push(Action::DeactivateCap),
            }
        },
        CappingOrder::LevelAfterActivate => {
            match config.step {
                CapStep::OneShot => r.push(Action::SetCapLevel(config.cap_to)),
                CapStep::Step => {
                    let levels: Vec<u64> = step_ramp_levels(config.cap_from, config.cap_to, step_size);
                    let mut i: usize = 0;
                    while i < levels.len()
                        invariant
                            i <= levels.len(),
                            r@.len() == (if i == 0 {
                                0
                            } else {
                                2 * i - 1
                            }),
                            forall|j: int|
                                0 <= j < r@.len() ==> #[trigger] r@[j] == ramp_actions(
                                    levels@,
                                    interval_secs,
                                )[j],
                        decreases levels.len() - i,
                    {
                        if i > 0 {
                            r.push(Action::SleepSecs(interval_secs));
                        }
                        r.push(Action::SetCapLevel(levels[i]));
                        i += 1;
                    }
                    assert(r@ =~= ramp_actions(levels@, interval_secs));
                },
            }
        },
        CappingOrder::LevelToLevel => r.push(Action::SetCapLevel(config.cap_to)),
        CappingOrder::LevelToLevelActivate => {
            r.push(Action::SetCapLevel(config.cap_to));
            r.push(Action::ActivateCap);
        },
    }
    assert(r@ =~= cap_operation(*config, step_size, interval_secs));
    r
}

/// The time that a ramp between the two caps is given, in seconds.
pub fn step_time_secs(low: u64, high: u64, step_size: u64, interval_secs: u64) -> (r: Option<u64>)
    ensures
        r == step_time(low, high, step_size, interval_secs),
{
    if step_size == 0 || low > high {
        return None;
    }
    let delta: u64 = high - low;
    let whole: u64 = delta / step_size;
    assert(delta % step_size != 0 ==> whole < u64::MAX) by (nonlinear_arith)
        requires
            step_size > 0,
            delta <= u64::MAX,
            whole == delta / step_size,
    ;
    let steps: u64 = if delta % step_size == 0 {
        whole
    } else {
        whole + 1
    };
    assert(steps == (high - low + step_size - 1) / (step_size as int)) by (nonlinear_arith)
        requires
            step_size > 0,
            delta == high - low,
            whole == delta / step_size,
            steps == (if delta % step_size == 0 {
                whole as int
            } else {
                whole + 1
            }),
    ;
    if steps == u64::MAX {
        assert((steps + 1) * interval_secs > u64::MAX || interval_secs == 0) by (nonlinear_arith)
            requires
                steps == u64::MAX,
        ;
        if interval_secs == 0 {
            assert((steps + 1) * interval_secs == 0) by (nonlinear_arith)
                requires
                    interval_secs == 0,
            ;
            return Some(0);
        }
        return None;
    }
    (steps + 1).checked_mul(interval_secs)
}

/// The time that the load runs for a test, in seconds.
pub fn runtime_secs(warmup_secs: u64, test_time_secs: u64, step: CapStep, ramp_secs: u64) -> (r:
    Option<u64>)
    ensures
        r == run_time(warmup_secs, test_time_secs, step, ramp_secs),
{
    let extra: u64 = match step {
        CapStep::Step => ramp_secs,
        CapStep::OneShot => 0,
    };
    match warmup_secs.checked_add(test_time_secs) {
        None => None,
        Some(base) => base.checked_add(extra),
    }
}

/// A ramp ends at its target, stays between its start and its target, and
/// each of its levels lies closer to the target than the one before.
pub proof fn lemma_ramp_approaches(current: u64, to: u64, step: u64)
    requires
        step > 0,
    ensures
        ramp_levels(current, to, step).len() >= 1,
        ramp_levels(current, to, step).last() == to,
        forall|i: int|
            0 <= i < ramp_levels(current, to, step).len() ==> {
                let level = #[trigger] ramp_levels(current, to, step)[i];
                &&& distance(level, to) <= distance(current, to)
                &&& (current != to ==> distance(level, to) < distance(current, to))
                &&& (current >= to ==> to <= level <= current)
                &&& (current <= to ==> current <= level <= to)
            },
        forall|i: int, j: int|
            0 <= i < j < ramp_levels(current, to, step).len() ==> distance(
                #[trigger] ramp_levels(current, to, step)[j],
                to,
            ) < distance(#[trigger] ramp_levels(current, to, step)[i], to),
    decreases distance(current, to),
{
    let r = ramp_levels(current, to, step);
    if distance(current, to) > step {
        let next = if current > to {
            (current - step) as u64
        } else {
            (current + step) as u64
        };
        let rest = ramp_levels(next, to, step);
        lemma_ramp_approaches(next, to, step);
        assert(r =~= seq![next] + rest);
        assert(r[0] == next);
        assert forall|i: int| 0 <= i < r.len() implies {
            let level = #[trigger] r[i];
            &&& distance(level, to) <= distance(current, to)
            &&& (current != to ==> distance(level, to) < distance(current, to))
            &&& (current >= to ==> to <= level <= current)
            &&& (current <= to ==> current <= level <= to)
        } by {
            if i > 0 {
                assert(r[i] == rest[i - 1]);
            }
        }
        assert forall|i: int, j: int| 0 <= i < j < r.len() implies distance(#[trigger] r[j], to)
            < distance(#[trigger] r[i], to) by {
            assert(r[j] == rest[j - 1]);
            if i > 0 {
                assert(r[i] == rest[i - 1]);
            }
        }
    } else {
        assert(r =~= seq![to]);
    }
}

/// How many steps a ramp takes before it sets its target, which lies
/// `left` from its start: as many as leave one step or less.
pub open spec fn ramp_steps(left: int, step: u64) -> int {
    if left <= 0 || step == 0 {
        0
    } else {
        (left - 1) / (step as int)
    }
}

/// A ramp takes `ramp_steps` steps of exactly the step size, each from the
/// level before it towards the target, and then sets the target itself.
pub proof fn lemma_ramp_steps(current: u64, to: u64, step: u64)
    requires
        step > 0,
    ensures
        ramp_levels(current, to, step).len() == ramp_steps(distance(current, to), step) + 1,
        ramp_levels(current, to, step).last() == to,
        forall|i: int|
            0 <= i < ramp_levels(current, to, step).len() - 1 ==> #[trigger] ramp_levels(
                current,
                to,
                step,
            )[i] == (if current > to {
                current - (i + 1) * step
            } else {
                current + (i + 1) * step
            }),
    decreases distance(current, to),
{
    let r = ramp_levels(current, to, step);
    let left = distance(current, to);
    if left > step {
        let next = if current > to {
            (current - step) as u64
        } else {
            (current + step) as u64
        };
        let rest = ramp_levels(next, to, step);
        lemma_ramp_steps(next, to, step);
        assert(r =~= seq![next] + rest);
        assert(distance(next, to) == left - step);
        assert(ramp_steps(left, step) == ramp_steps(left - step, step) + 1) by (nonlinear_arith)
            requires
                left > step > 0,
        ;
        assert forall|i: int| 0 <= i < r.len() - 1 implies #[trigger] r[i] == (if current > to {
            current - (i + 1) * step
        } else {
            current + (i + 1) * step
        }) by {
            if i > 0 {
                assert(r[i] == rest[i - 1]);
                assert((i + 1) * step == i * step + step) by (nonlinear_arith);
            } else {
                assert((0 + 1) * step == step) by (nonlinear_arith);
            }
        }
    } else {
        assert(r =~= seq![to]);
        assert(ramp_steps(left, step) == 0) by (nonlinear_arith)
            requires
                0 <= left <= step,
                step > 0,
        ;
    }
}

/// One run of one test: the test, the settings it runs with, the phase it
/// is in, and the moments of its start, cap operation and end once they
/// have come.
#[derive(Debug, Clone, Copy, PartialEq, Eq)]
pub struct Coordinator {
    pub test: Test,
    pub phase: Phase,
    pub warmup_secs: u64,
    pub runtime_secs: u64,
    pub step_size_watts: u64,
    pub step_interval_secs: u64,
    pub pause_millis: u64,
    pub start_timestamp: Option<i64>,
    pub cap_timestamp: Option<i64>,
    pub end_timestamp: Option<i64>,
}

/// Why `test` cannot be run with the given settings, if it cannot.
pub open spec fn plan_error(test: Test, configuration: Configuration) -> Option<ConfigurationError> {
    let ramp = step_time(
        configuration.cap_low_watts,
        configuration.cap_high_watts,
        configuration.cap_step_size_watts,
        configuration.cap_step_interval_secs,
    );
    if test.cap_from == test.cap_to {
        Some(ConfigurationError::CapNeutral)
    } else if configuration.cap_step_size_watts == 0 || configuration.cap_low_watts
        > configuration.cap_high_watts {
        Some(ConfigurationError::InvalidSteps)
    } else if ramp.is_none() || run_time(
        configuration.warmup_secs,
        configuration.test_time_secs,
        test.step,
        ramp.unwrap(),
    ).is_none() {
        Some(ConfigurationError::RuntimeOverflow)
    } else {
        None
    }
}

/// The run of `test` with the given settings, before its start.
pub open spec fn planned(test: Test, configuration: Configuration) -> Coordinator
    recommends
        plan_error(test, configuration).is_none(),
{
    Coordinator {
        test,
        phase: Phase::Idle,
        warmup_secs: configuration.warmup_secs,
        runtime_secs: run_time(
            configuration.warmup_secs,
            configuration.test_time_secs,
            test.step,
            step_time(
                configuration.cap_low_watts,
                configuration.cap_high_watts,
                configuration.cap_step_size_watts,
                configuration.cap_step_interval_secs,
            ).unwrap(),
        ).unwrap(),
        step_size_watts: configuration.cap_step_size_watts,
        step_interval_secs: configuration.cap_step_interval_secs,
        pause_millis: configuration.setup_pause_millis,
        start_timestamp: None,
        cap_timestamp: None,
        end_timestamp: None,
    }
}

impl Coordinator {
    /// Whether the run can be carried out: its ramp has a step size, and
    /// its test changes the cap.
    pub open spec fn wf(&self) -> bool {
        self.step_size_watts > 0 && self.test.cap_from != self.test.cap_to
    }

    /// What the remote side is asked to do.
    pub open spec fn load_request(&self) -> FirestarterParams {
        FirestarterParams {
            runtime_secs: self.runtime_secs,
            load_pct: self.test.load_pct,
            load_period_us: self.test.load_period,
            n_threads: self.test.n_threads,
        }
    }

    /// What is to be done in the current phase, in order. In the warm-up
    /// the load is launched and, while it runs, the warm-up time is waited
    /// out.
    pub open spec fn phase_actions(&self) -> Seq<Action> {
        match self.phase {
            Phase::Idle => Seq::empty(),
            Phase::SettingPreconditions => seq![Action::StartBmcMonitor] + initial_conditions(
                self.test,
                self.pause_millis,
            ),
            Phase::Warmup => seq![
                Action::LaunchLoad(self.load_request()),
                Action::SleepSecs(self.warmup_secs),
            ],
            Phase::Capping => cap_operation(
                self.test,
                self.step_size_watts,
                self.step_interval_secs,
            ),
            Phase::AwaitingLoadCompletion => seq![Action::AwaitLoad],
            Phase::Collecting => seq![Action::StopBmcMonitor],
            Phase::Done => Seq::empty(),
            Phase::Failed => Seq::empty(),
        }
    }

    /// The run after `event`, reported at the moment `now`. The start is
    /// stamped when the run leaves the idle phase, the cap operation when
    /// the warm-up ends, the end when the samples are collected.
    pub open spec fn advanced(&self, event: Event, now: i64) -> Coordinator {
        let next = next_phase(self.phase, event);
        Coordinator {
            phase: next,
            start_timestamp: if self.phase == Phase::Idle && next == Phase::SettingPreconditions {
                Some(now)
            } else {
                self.start_timestamp
            },
            cap_timestamp: if self.phase == Phase::Warmup && next == Phase::Capping {
                Some(now)
            } else {
                self.cap_timestamp
            },
            end_timestamp: if self.phase == Phase::Collecting && next == Phase::Done {
                Some(now)
            } else {
                self.end_timestamp
            },
            ..*self
        }
    }

    /// Plans the run of `test`. A test that leaves the cap where it is, a
    /// ramp without a step size and a run time beyond 64 bits are refused.
    pub fn new(test: Test, configuration: &Configuration) -> (r: Result<Self, ConfigurationError>)
        ensures
            match plan_error(test, *configuration) {
                Some(e) => r == Err::<Coordinator, ConfigurationError>(e),
                None => r == Ok::<Coordinator, ConfigurationError>(planned(test, *configuration))
                    && planned(test, *configuration).wf(),
            },
    {
        if test.cap_from == test.cap_to {
            return Err(ConfigurationError::CapNeutral);
        }
        if configuration.cap_step_size_watts == 0 || configuration.cap_low_watts
            > configuration.cap_high_watts {
            return Err(ConfigurationError::InvalidSteps);
        }
        let ramp_secs: u64 = match step_time_secs(
            configuration.cap_low_watts,
            configuration.cap_high_watts,
            configuration.cap_step_size_watts,
            configuration.cap_step_interval_secs,
        ) {
            Some(secs) => secs,
            None => {
                return Err(ConfigurationError::RuntimeOverflow);
            },
        };
        let total: u64 = match runtime_secs(
            configuration.warmup_secs,
            configuration.test_time_secs,
            test.step,
            ramp_secs,
        ) {
            Some(secs) => secs,
            None => {
                return Err(ConfigurationError::RuntimeOverflow);
            },
        };
        Ok(
            Coordinator {
                test,
                phase: Phase::Idle,
                warmup_secs: configuration.warmup_secs,
                runtime_secs: total,
                step_size_watts: configuration.cap_step_size_watts,
                step_interval_secs: configuration.cap_step_interval_secs,
                pause_millis: configuration.setup_pause_millis,
                start_timestamp: None,
                cap_timestamp: None,
                end_timestamp: None,
            },
        )
    }

    /// What is to be done in the current phase, in order.
    pub fn actions(&self) -> (r: Vec<Action>)
        requires
            self.wf(),
        ensures
            r@ == self.phase_actions(),
    {
        match self.phase {
            Phase::SettingPreconditions => {
                let conditions: Vec<Action> = set_initial_conditions(&self.test, self.pause_millis);
                let mut r: Vec<Action> = Vec::new();
                r.push(Action::StartBmcMonitor);
                let mut i: usize = 0;
                while i < conditions.len()
                    invariant
                        i <= conditions.len(),
                        r@ == seq![Action::StartBmcMonitor] + conditions@.subrange(0, i as int),
                    decreases conditions.len() - i,
                {
                    r.push(conditions[i]);
                    i += 1;
                    assert(r@ =~= seq![Action::StartBmcMonitor] + conditions@.subrange(0, i as int));
                }
                assert(conditions@.subrange(0, i as int) =~= conditions@);
                r
            },
            Phase::Warmup => {
                let request = FirestarterParams {
                    runtime_secs: self.runtime_secs,
                    load_pct: self.test.load_pct,
                    load_period_us: self.test.load_period,
                    n_threads: self.test.n_threads,
                };
                let mut r: Vec<Action> = Vec::new();
                r.push(Action::LaunchLoad(request));
                r.push(Action::SleepSecs(self.warmup_secs));
                assert(r@ =~= self.phase_actions());
                r
            },
            Phase::Capping => do_cap_operation(
                &self.test,
                self.step_size_watts,
                self.step_interval_secs,
            ),
            Phase::AwaitingLoadCompletion => {
                let mut r: Vec<Action> = Vec::new();
                r.push(Action::AwaitLoad);
                assert(r@ =~= self.phase_actions());
                r
            },
            Phase::Collecting => {
                let mut r: Vec<Action> = Vec::new();
                r.push(Action::StopBmcMonitor);
                assert(r@ =~= self.phase_actions());
                r
            },
            _ => {
                let r: Vec<Action> = Vec::new();
                assert(r@ =~= self.phase_actions());
                r
            },
        }
    }

    /// Takes the run to its next phase on `event`, reported at the moment
    /// `now` in milliseconds since the Unix epoch.
    pub fn advance(&mut self, event: Event, now: i64)
        ensures
            *final(self) == old(self).advanced(event, now),
            old(self).wf() ==> final(self).wf(),
    {
        let next: Phase = match self.phase {
            Phase::Done => Phase::Done,
            Phase::Failed => Phase::Failed,
            _ => match event {
                Event::Failed => Phase::Failed,
                Event::Completed => match self.phase {
                    Phase::Idle => Phase::SettingPreconditions,
                    Phase::SettingPreconditions => Phase::Warmup,
                    Phase::Warmup => Phase::Capping,
                    Phase::Capping => Phase::AwaitingLoadCompletion,
                    Phase::AwaitingLoadCompletion => Phase::Collecting,
                    _ => Phase::Done,
                },
            },
        };
        if self.phase == Phase::Idle && next == Phase::SettingPreconditions {
            self.start_timestamp = Some(now);
        }
        if self.phase == Phase::Warmup && next == Phase::Capping {
            self.cap_timestamp = Some(now);
        }
        if self.phase == Phase::Collecting && next == Phase::Done {
            self.end_timestamp = Some(now);
        }
        self.phase = next;
    }

    /// The record of the run once it is done and all three of its moments
    /// are known.
    pub fn test_run(&self) -> (r: Option<TestRun>)
        ensures
            r.is_some() == (self.phase == Phase::Done && self.start_timestamp.is_some()
                && self.cap_timestamp.is_some() && self.end_timestamp.is_some()),
            r.is_some() ==> r.unwrap().test() == self.test && r.unwrap().start_timestamp
                == self.start_timestamp.unwrap() && r.unwrap().cap_timestamp
                == self.cap_timestamp.unwrap() && r.unwrap().end_timestamp
                == self.end_timestamp.unwrap(),
    {
        if self.phase != Phase::Done {
            return None;
        }
        match (self.start_timestamp, self.cap_timestamp, self.end_timestamp) {
            (Some(start), Some(cap), Some(end)) => {
                let timestamps: Timestamps = (start, cap, end);
                Some(TestRun::new(timestamps, self.test))
            },
            _ => None,
        }
    }
}

/// Where the level is set before capping is switched, the switch that the
/// test asks for is thrown at the cap operation and nowhere before: the
/// preconditions set the target level and throw the opposite switch.
pub proof fn lemma_level_before_activate(run: Coordinator)
    requires
        run.test.capping_order == CappingOrder::LevelBeforeActivate,
    ensures
        initial_conditions(run.test, run.pause_millis) == seq![
            Action::SetCapLevel(run.test.cap_to),
            Action::PauseMillis(run.pause_millis),
            opposite_switch(run.test.operation),
            Action::PauseMillis(run.pause_millis),
        ],
        forall|i: int|
            0 <= i < initial_conditions(run.test, run.pause_millis).len()
                ==> #[trigger] initial_conditions(run.test, run.pause_millis)[i] != switch(
                run.test.operation,
            ),
        cap_operation(run.test, run.step_size_watts, run.step_interval_secs) == seq![
            switch(run.test.operation),
        ],
        opposite_switch(run.test.operation) != switch(run.test.operation),
{
}

/// A run that goes well passes through every phase in order: six
/// completed phases take it from idle to done, with all three moments
/// stamped. A failure in any phase before the end is final.
pub proof fn lemma_run_passes_all_phases(run: Coordinator, now: i64, event: Event)
    requires
        run.phase == Phase::Idle,
    ensures
        ({
            let a = run.advanced(Event::Completed, now);
            let b = a.advanced(Event::Completed, now);
            let c = b.advanced(Event::Completed, now);
            let d = c.advanced(Event::Completed, now);
            let e = d.advanced(Event::Completed, now);
            let f = e.advanced(Event::Completed, now);
            &&& a.phase == Phase::SettingPreconditions
            &&& b.phase == Phase::Warmup
            &&& c.phase == Phase::Capping
            &&& d.phase == Phase::AwaitingLoadCompletion
            &&& e.phase == Phase::Collecting
            &&& f.phase == Phase::Done
            &&& f.start_timestamp == Some(now)
            &&& f.cap_timestamp == Some(now)
            &&& f.end_timestamp == Some(now)
            &&& f.test == run.test
            &&& c.advanced(Event::Failed, now).phase == Phase::Failed
            &&& c.advanced(Event::Failed, now).advanced(event, now).phase == Phase::Failed
        }),
{
}

} // verus!
