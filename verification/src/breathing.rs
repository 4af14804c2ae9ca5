//! The breathing reference application.

use vstd::prelude::*;
use crate::config::XM125Config;
use crate::distance::signed16;
use crate::error::RadarError;
use crate::host::Reply;
use crate::ops::Blame;
use crate::ops::Op;
use crate::outcome::Outcome;
use crate::outcome::Step;
use crate::registers;
use crate::runner::Progress;
use crate::runner::Runner;
use crate::runner::RunnerState;
use crate::status::Application;
use crate::status::Condition;

verus! {

/// What the breathing application is doing.
#[derive(Clone, Copy, Debug, PartialEq, Eq, Structural)]
pub enum BreathingAppState {
    Init,
    NoPresence,
    IntraPresence,
    DetermineDistance,
    EstimateBreathingRate,
}

impl BreathingAppState {
    /// The state that the app-state register encodes. A value that encodes
    /// none is taken for `Init`.
    #[verifier::allow_in_spec]
    pub fn from_u32(value: u32) -> BreathingAppState
        returns
            (if value == 1 {
                BreathingAppState::NoPresence
            } else if value == 2 {
                BreathingAppState::IntraPresence
            } else if value == 3 {
                BreathingAppState::DetermineDistance
            } else if value == 4 {
                BreathingAppState::EstimateBreathingRate
            } else {
                BreathingAppState::Init
            }),
    {
        if value == 1 {
            BreathingAppState::NoPresence
        } else if value == 2 {
            BreathingAppState::IntraPresence
        } else if value == 3 {
            BreathingAppState::DetermineDistance
        } else if value == 4 {
            BreathingAppState::EstimateBreathingRate
        } else {
            BreathingAppState::Init
        }
    }

    /// The state in words.
    pub fn display_name(&self) -> (name: &'static str)
        ensures
            name@ == (match *self {
                BreathingAppState::Init => "Initializing"@,
                BreathingAppState::NoPresence => "No Presence"@,
                BreathingAppState::IntraPresence => "Presence Detected"@,
                BreathingAppState::DetermineDistance => "Determining Distance"@,
                BreathingAppState::EstimateBreathingRate => "Estimating Breathing Rate"@,
            }),
    {
        match self {
            BreathingAppState::Init => "Initializing",
            BreathingAppState::NoPresence => "No Presence",
            BreathingAppState::IntraPresence => "Presence Detected",
            BreathingAppState::DetermineDistance => "Determining Distance",
            BreathingAppState::EstimateBreathingRate => "Estimating Breathing Rate",
        }
    }
}

/// One breathing measurement.
#[derive(Clone, Copy, Debug, PartialEq, Eq, Structural)]
pub struct BreathingMeasurement {
    pub result_ready: bool,
    /// Breathing rate in thousandths of a breath per minute.
    pub breathing_rate: u32,
    pub app_state: BreathingAppState,
    /// Sensor temperature in degrees Celsius.
    pub temperature: i16,
}

/// The measurement that the result word, the rate register and the
/// app-state register amount to.
pub open spec fn spec_decode(result: u32, rate: u32, app_state: u32) -> BreathingMeasurement {
    BreathingMeasurement {
        result_ready: result & registers::BREATHING_RESULT_READY != 0,
        breathing_rate: rate,
        app_state: BreathingAppState::from_u32(app_state),
        temperature: signed16(result / 0x1_0000),
    }
}

#[verifier::when_used_as_spec(spec_decode)]
pub fn decode(result: u32, rate: u32, app_state: u32) -> (m: BreathingMeasurement)
    ensures
        m == spec_decode(result, rate, app_state),
{
    BreathingMeasurement {
        result_ready: result & registers::BREATHING_RESULT_READY != 0,
        breathing_rate: rate,
        app_state: BreathingAppState::from_u32(app_state),
        temperature: signed16(result / 0x1_0000),
    }
}

/// `value` where it is set, else `default`.
#[verifier::allow_in_spec]
pub fn or_default(value: u32, default: u32) -> u32
    returns
        (if value > 0 {
            value
        } else {
            default
        }),
{
    if value > 0 {
        value
    } else {
        default
    }
}

/// Start of the range that a configuration gives the application.
#[verifier::allow_in_spec]
pub fn effective_start_mm(config: &XM125Config) -> u32
    returns
        or_default(config.start_mm, registers::BREATHING_START_DEFAULT),
{
    or_default(config.start_mm, registers::BREATHING_START_DEFAULT)
}

/// End of the range that a configuration gives the application: its own
/// where that lies beyond the start, else the default.
#[verifier::allow_in_spec]
pub fn effective_end_mm(config: &XM125Config) -> u32
    returns
        (if config.end_mm() > effective_start_mm(config) {
            config.end_mm()
        } else {
            registers::BREATHING_END_DEFAULT
        }),
{
    if config.end_mm() > effective_start_mm(config) {
        config.end_mm()
    } else {
        registers::BREATHING_END_DEFAULT
    }
}

/// A register write that fails the sequence when the bus fails.
pub open spec fn write(address: u16, value: u32) -> Op {
    Op::Write { address, value }
}

/// The writes of a whole configuration: range, frame rate and threshold
/// first, then the other registers at their defaults.
pub open spec fn configuration_script(config: XM125Config) -> Seq<Op> {
    seq![
        write(registers::REG_BREATHING_START, effective_start_mm(&config)),
        write(registers::REG_BREATHING_END, effective_end_mm(&config)),
        write(
            registers::REG_BREATHING_FRAME_RATE,
            or_default(config.frame_rate, registers::BREATHING_FRAME_RATE_DEFAULT),
        ),
        write(
            registers::REG_BREATHING_INTRA_DETECTION_THRESHOLD,
            or_default(
                config.intra_detection_threshold,
                registers::BREATHING_INTRA_DETECTION_THRESHOLD_DEFAULT,
            ),
        ),
        write(
            registers::REG_BREATHING_NUM_DISTANCES_TO_ANALYZE,
            registers::BREATHING_NUM_DISTANCES_TO_ANALYZE_DEFAULT,
        ),
        write(
            registers::REG_BREATHING_DISTANCE_DETERMINATION_DURATION_S,
            registers::BREATHING_DISTANCE_DETERMINATION_DURATION_S_DEFAULT,
        ),
        write(
            registers::REG_BREATHING_USE_PRESENCE_PROCESSOR,
            registers::BREATHING_USE_PRESENCE_PROCESSOR_DEFAULT,
        ),
        write(
            registers::REG_BREATHING_LOWEST_BREATHING_RATE,
            registers::BREATHING_LOWEST_BREATHING_RATE_DEFAULT,
        ),
        write(
            registers::REG_BREATHING_HIGHEST_BREATHING_RATE,
            registers::BREATHING_HIGHEST_BREATHING_RATE_DEFAULT,
        ),
        write(
            registers::REG_BREATHING_TIME_SERIES_LENGTH_S,
            registers::BREATHING_TIME_SERIES_LENGTH_S_DEFAULT,
        ),
        write(
            registers::REG_BREATHING_SWEEPS_PER_FRAME,
            registers::BREATHING_SWEEPS_PER_FRAME_DEFAULT,
        ),
        write(registers::REG_BREATHING_HWAAS, registers::BREATHING_HWAAS_DEFAULT),
        write(registers::REG_BREATHING_PROFILE, registers::BREATHING_PROFILE_DEFAULT),
    ]
}

/// Apply-configuration under the busy/error discipline, the wait until it
/// is done and the check that the application accepted it.
pub open spec fn apply_script() -> Seq<Op> {
    seq![
        Op::Command { app: Application::Breathing, code: registers::CMD_BREATHING_APPLY_CONFIGURATION },
        Op::Await {
            condition: Condition::NotBusy,
            timeout_ms: registers::CALIBRATION_TIMEOUT_MS,
            interval_ms: registers::POLL_INTERVAL_MS,
        },
        Op::Check { app: Application::Breathing, blame: Blame::BreathingConfiguration },
    ]
}

/// The start of the application, the wait until it is no longer busy, the
/// check that it reports no error, and the reads of result word, rate and
/// app state.
pub open spec fn measure_script() -> Seq<Op> {
    seq![
        Op::Command { app: Application::Breathing, code: registers::CMD_BREATHING_START_APP },
        Op::Await {
            condition: Condition::NotBusy,
            timeout_ms: registers::MEASUREMENT_TIMEOUT_MS,
            interval_ms: registers::POLL_INTERVAL_MS,
        },
        Op::Check { app: Application::Breathing, blame: Blame::Measurement },
        Op::Read { address: registers::REG_BREATHING_RESULT },
        Op::Read { address: registers::REG_BREATHING_RATE },
        Op::Read { address: registers::REG_BREATHING_APP_STATE },
    ]
}

/// What the application's driver is doing.
#[derive(Clone, Copy, Debug, PartialEq, Eq, Structural)]
pub enum BreathingPhase {
    Idle,
    /// An operation without a result.
    Working,
    /// The start, the wait and the reads of a measurement.
    Measuring,
}

/// The breathing application and the operation it is carrying out.
pub struct BreathingDetector {
    runner: Runner,
    phase: BreathingPhase,
}

/// The state of a `BreathingDetector`.
pub struct BreathingState {
    pub runner: RunnerState,
    pub phase: BreathingPhase,
}

impl BreathingState {
    /// A driver that is doing nothing.
    pub open spec fn fresh() -> BreathingState {
        BreathingState { runner: RunnerState::fresh(Seq::empty()), phase: BreathingPhase::Idle }
    }

    /// Begins `script` for the purpose `phase`.
    pub open spec fn launch(phase: BreathingPhase, script: Seq<Op>, now_ms: u64) -> (
        BreathingState,
        Step,
    ) {
        let (runner, progress) = RunnerState::fresh(script).start(now_ms);
        match progress {
            Progress::Ask { request } => (BreathingState { runner, phase }, Step::Ask { request }),
            Progress::Complete => (
                BreathingState { runner, phase: BreathingPhase::Idle },
                Step::Finished { outcome: Outcome::Done },
            ),
            Progress::Failed { error } => (
                BreathingState { runner, phase: BreathingPhase::Idle },
                Step::Failed { error },
            ),
        }
    }

    /// What follows when the sequence in execution has completed.
    pub open spec fn completed(self, runner: RunnerState) -> (BreathingState, Step) {
        let idle = BreathingState { runner, phase: BreathingPhase::Idle };
        match self.phase {
            BreathingPhase::Measuring => if runner.words.len() != 3 {
                (idle, Step::Failed { error: RadarError::InvalidResponse })
            } else {
                (
                    idle,
                    Step::Finished {
                        outcome: Outcome::Breathing {
                            breathing: decode(runner.words[0], runner.words[1], runner.words[2]),
                        },
                    },
                )
            },
            _ => (idle, Step::Finished { outcome: Outcome::Done }),
        }
    }

    /// The state and the next step after the host's reply.
    pub open spec fn resume(self, now_ms: u64, reply: Reply) -> (BreathingState, Step) {
        let (runner, progress) = self.runner.resume(now_ms, reply);
        match progress {
            Progress::Ask { request } => (BreathingState { runner, ..self }, Step::Ask { request }),
            Progress::Failed { error } => (
                BreathingState { runner, phase: BreathingPhase::Idle },
                Step::Failed { error },
            ),
            Progress::Complete => self.completed(runner),
        }
    }
}

impl View for BreathingDetector {
    type V = BreathingState;

    closed spec fn view(&self) -> BreathingState {
        BreathingState { runner: self.runner@, phase: self.phase }
    }
}

fn push_write(script: &mut Vec<Op>, address: u16, value: u32)
    ensures
        final(script)@ == old(script)@.push(write(address, value)),
{
    script.push(Op::Write { address, value });
}

fn build_configuration(config: &XM125Config) -> (script: Vec<Op>)
    ensures
        script@ == configuration_script(*config),
{
    let mut script: Vec<Op> = Vec::new();
    push_write(&mut script, registers::REG_BREATHING_START, effective_start_mm(config));
    push_write(&mut script, registers::REG_BREATHING_END, effective_end_mm(config));
    push_write(
        &mut script,
        registers::REG_BREATHING_FRAME_RATE,
        or_default(config.frame_rate, registers::BREATHING_FRAME_RATE_DEFAULT),
    );
    push_write(
        &mut script,
        registers::REG_BREATHING_INTRA_DETECTION_THRESHOLD,
        or_default(
            config.intra_detection_threshold,
            registers::BREATHING_INTRA_DETECTION_THRESHOLD_DEFAULT,
        ),
    );
    push_write(
        &mut script,
        registers::REG_BREATHING_NUM_DISTANCES_TO_ANALYZE,
        registers::BREATHING_NUM_DISTANCES_TO_ANALYZE_DEFAULT,
    );
    push_write(
        &mut script,
        registers::REG_BREATHING_DISTANCE_DETERMINATION_DURATION_S,
        registers::BREATHING_DISTANCE_DETERMINATION_DURATION_S_DEFAULT,
    );
    push_write(
        &mut script,
        registers::REG_BREATHING_USE_PRESENCE_PROCESSOR,
        registers::BREATHING_USE_PRESENCE_PROCESSOR_DEFAULT,
    );
    push_write(
        &mut script,
        registers::REG_BREATHING_LOWEST_BREATHING_RATE,
        registers::BREATHING_LOWEST_BREATHING_RATE_DEFAULT,
    );
    push_write(
        &mut script,
        registers::REG_BREATHING_HIGHEST_BREATHING_RATE,
        registers::BREATHING_HIGHEST_BREATHING_RATE_DEFAULT,
    );
    push_write(
        &mut script,
        registers::REG_BREATHING_TIME_SERIES_LENGTH_S,
        registers::BREATHING_TIME_SERIES_LENGTH_S_DEFAULT,
    );
    push_write(
        &mut script,
        registers::REG_BREATHING_SWEEPS_PER_FRAME,
        registers::BREATHING_SWEEPS_PER_FRAME_DEFAULT,
    );
    push_write(&mut script, registers::REG_BREATHING_HWAAS, registers::BREATHING_HWAAS_DEFAULT);
    push_write(&mut script, registers::REG_BREATHING_PROFILE, registers::BREATHING_PROFILE_DEFAULT);
    assert(script@ =~= configuration_script(*config));
    script
}

impl BreathingDetector {
    /// A driver that is doing nothing.
    pub fn new() -> (detector: BreathingDetector)
        ensures
            detector@ == BreathingState::fresh(),
    {
        BreathingDetector { runner: Runner::new(Vec::new()), phase: BreathingPhase::Idle }
    }

    fn launch(&mut self, phase: BreathingPhase, script: Vec<Op>, now_ms: u64) -> (step: Step)
        ensures
            (final(self)@, step) == BreathingState::launch(phase, script@, now_ms),
    {
        let mut runner = Runner::new(script);
        let progress = runner.start(now_ms);
        self.runner = runner;
        match progress {
            Progress::Ask { request } => {
                self.phase = phase;
                Step::Ask { request }
            },
            Progress::Complete => {
                self.phase = BreathingPhase::Idle;
                Step::Finished { outcome: Outcome::Done }
            },
            Progress::Failed { error } => {
                self.phase = BreathingPhase::Idle;
                Step::Failed { error }
            },
        }
    }

    /// Writes the whole configuration: what `config` sets, and defaults
    /// for the rest.
    pub fn configure(&mut self, config: &XM125Config, now_ms: u64) -> (step: Step)
        ensures
            (final(self)@, step) == BreathingState::launch(
                BreathingPhase::Working,
                configuration_script(*config),
                now_ms,
            ),
    {
        self.launch(BreathingPhase::Working, build_configuration(config), now_ms)
    }

    /// Applies the configuration and checks that the application accepted
    /// it.
    pub fn apply_configuration(&mut self, now_ms: u64) -> (step: Step)
        ensures
            (final(self)@, step) == BreathingState::launch(
                BreathingPhase::Working,
                apply_script(),
                now_ms,
            ),
    {
        let mut script: Vec<Op> = Vec::new();
        script.push(
            Op::Command {
                app: Application::Breathing,
                code: registers::CMD_BREATHING_APPLY_CONFIGURATION,
            },
        );
        script.push(
            Op::Await {
                condition: Condition::NotBusy,
                timeout_ms: registers::CALIBRATION_TIMEOUT_MS,
                interval_ms: registers::POLL_INTERVAL_MS,
            },
        );
        script.push(Op::Check { app: Application::Breathing, blame: Blame::BreathingConfiguration });
        assert(script@ =~= apply_script());
        self.launch(BreathingPhase::Working, script, now_ms)
    }

    /// Begins a measurement.
    pub fn measure(&mut self, now_ms: u64) -> (step: Step)
        ensures
            (final(self)@, step) == BreathingState::launch(
                BreathingPhase::Measuring,
                measure_script(),
                now_ms,
            ),
    {
        let mut script: Vec<Op> = Vec::new();
        script.push(
            Op::Command { app: Application::Breathing, code: registers::CMD_BREATHING_START_APP },
        );
        script.push(
            Op::Await {
                condition: Condition::NotBusy,
                timeout_ms: registers::MEASUREMENT_TIMEOUT_MS,
                interval_ms: registers::POLL_INTERVAL_MS,
            },
        );
        script.push(Op::Check { app: Application::Breathing, blame: Blame::Measurement });
        script.push(Op::Read { address: registers::REG_BREATHING_RESULT });
        script.push(Op::Read { address: registers::REG_BREATHING_RATE });
        script.push(Op::Read { address: registers::REG_BREATHING_APP_STATE });
        assert(script@ =~= measure_script());
        self.launch(BreathingPhase::Measuring, script, now_ms)
    }

    /// Takes the host's reply to the outstanding request and returns what
    /// the operation in progress wants next, or how it ended.
    pub fn resume(&mut self, now_ms: u64, reply: Reply) -> (step: Step)
        ensures
            (final(self)@, step) == old(self)@.resume(now_ms, reply),
    {
        let progress = self.runner.resume(now_ms, reply);
        match progress {
            Progress::Ask { request } => Step::Ask { request },
            Progress::Failed { error } => {
                self.phase = BreathingPhase::Idle;
                Step::Failed { error }
            },
            Progress::Complete => {
                let phase = self.phase;
                self.phase = BreathingPhase::Idle;
                match phase {
                    BreathingPhase::Measuring => {
                        let words = self.runner.words();
                        if words.len() != 3 {
                            Step::Failed { error: RadarError::InvalidResponse }
                        } else {
                            Step::Finished {
                                outcome: Outcome::Breathing {
                                    breathing: decode(words[0], words[1], words[2]),
                                },
                            }
                        }
                    },
                    _ => Step::Finished { outcome: Outcome::Done },
                }
            },
        }
    }
}

/// The sequences of the breathing application issue their commands under
/// the busy/error discipline only.
pub proof fn lemma_breathing_is_disciplined(config: XM125Config)
    ensures
        crate::ops::disciplined(configuration_script(config)),
        crate::ops::disciplined(apply_script()),
        crate::ops::disciplined(measure_script()),
{
}

} // verus!
