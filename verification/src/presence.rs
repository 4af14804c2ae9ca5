//! The presence detector.

use vstd::prelude::*;
use crate::config::PresenceRange;
use crate::error::DeviceFault;
use crate::error::RadarError;
use crate::host::Reply;
use crate::ops::Blame;
use crate::ops::Op;
use crate::outcome::Outcome;
use crate::outcome::Step;
use crate::registers;
use crate::runner::Progress;
use crate::runner::Runner;
use crate::runner::RunnerState;
use crate::status::Application;
use crate::status::Condition;

verus! {

/// One presence measurement.
#[derive(Clone, Copy, Debug, PartialEq, Eq, Structural)]
pub struct PresenceMeasurement {
    pub presence_detected: bool,
    /// Distance to the detected presence in millimetres.
    pub presence_distance_mm: u32,
    /// Fast-motion score in thousandths.
    pub intra_presence_score: u32,
    /// Slow-motion score in thousandths.
    pub inter_presence_score: u32,
}

/// The profile for a range that ends at `end_mm`: up to 0.7 m profile 1,
/// up to 2.0 m profile 2, up to 3.5 m profile 3, up to 6.0 m profile 4,
/// beyond that profile 5. The table is empirical.
pub open spec fn spec_optimal_profile(end_mm: u32) -> u32 {
    if end_mm <= 700 {
        1
    } else if end_mm <= 2000 {
        2
    } else if end_mm <= 3500 {
        3
    } else if end_mm <= 6000 {
        4
    } else {
        5
    }
}

/// The step length for a range that ends at `end_mm`: a sixtieth of the
/// end in millimetres, kept within 12 and 120.
pub open spec fn spec_optimal_step_length(end_mm: u32) -> u32 {
    if end_mm / 60 < registers::PRESENCE_STEP_LENGTH_MIN {
        registers::PRESENCE_STEP_LENGTH_MIN
    } else if end_mm / 60 > registers::PRESENCE_STEP_LENGTH_MAX {
        registers::PRESENCE_STEP_LENGTH_MAX
    } else {
        end_mm / 60
    }
}

/// End of the range that `configure_range` selects for: that of the custom
/// range where both its start and its length are given, else the preset's.
pub open spec fn selected_end_mm(
    range: PresenceRange,
    custom_start_mm: Option<u32>,
    custom_length_mm: Option<u32>,
) -> u32 {
    if custom_start_mm is Some && custom_length_mm is Some {
        if custom_start_mm->0 + custom_length_mm->0 > u32::MAX {
            u32::MAX
        } else {
            (custom_start_mm->0 + custom_length_mm->0) as u32
        }
    } else {
        range.end_mm()
    }
}

/// The manual profile that goes with the applied range: 5 from 6.5 m on,
/// else 4.
pub open spec fn spec_applied_profile(end_mm: u32) -> u32 {
    if end_mm >= 6500 {
        5
    } else {
        4
    }
}

/// A register write that fails the sequence when the bus fails.
pub open spec fn write(address: u16, value: u32) -> Op {
    Op::Write { address, value }
}

/// A command to the presence detector under the busy/error discipline.
pub open spec fn command(code: u32) -> Op {
    Op::Command { app: Application::Presence, code }
}

/// The wait for the busy bit to clear, five seconds at most.
pub open spec fn await_not_busy() -> Op {
    Op::Await {
        condition: Condition::NotBusy,
        timeout_ms: registers::BUSY_TIMEOUT_MS,
        interval_ms: registers::POLL_INTERVAL_MS,
    }
}

/// A switch as a register value.
pub open spec fn flag(on: bool) -> u32 {
    if on {
        1
    } else {
        0
    }
}

/// The writes of range, profile selection, thresholds and frame rate. With
/// automatic profile selection switched off, the manual profile and step
/// length are written too.
pub open spec fn thresholds_script(
    intra_threshold: u32,
    inter_threshold: u32,
    frame_rate: u32,
    profile: u32,
    step_length: u32,
    auto_profile_enabled: bool,
    start_mm: u32,
    end_mm: u32,
) -> Seq<Op> {
    seq![
        write(registers::PRESENCE_REG_START_ADDRESS, start_mm),
        write(registers::PRESENCE_REG_END_ADDRESS, end_mm),
        write(registers::PRESENCE_REG_AUTO_PROFILE_ADDRESS, flag(auto_profile_enabled)),
        write(registers::PRESENCE_REG_AUTO_STEP_LENGTH_ADDRESS, flag(auto_profile_enabled)),
    ] + (if auto_profile_enabled {
        Seq::<Op>::empty()
    } else {
        seq![
            write(registers::PRESENCE_REG_MANUAL_PROFILE_ADDRESS, profile),
            write(registers::PRESENCE_REG_MANUAL_STEP_LENGTH_ADDRESS, step_length),
        ]
    }) + seq![
        write(registers::PRESENCE_REG_AUTO_SUBSWEEPS_ADDRESS, 1),
        write(registers::PRESENCE_REG_HWAAS_ADDRESS, registers::PRESENCE_HWAAS_DEFAULT),
        write(
            registers::PRESENCE_REG_SIGNAL_QUALITY_ADDRESS,
            registers::PRESENCE_SIGNAL_QUALITY_DEFAULT,
        ),
        write(registers::PRESENCE_REG_INTRA_DETECTION_THRESHOLD_ADDRESS, intra_threshold),
        write(registers::PRESENCE_REG_INTER_DETECTION_THRESHOLD_ADDRESS, inter_threshold),
        write(registers::PRESENCE_REG_FRAME_RATE_ADDRESS, frame_rate),
    ]
}

/// The whole sequence that puts a range into effect.
///
/// The module is reset first, and a reset clears the configuration
/// registers: profile, step length and range are therefore written after
/// it, the range last. Apply-configuration follows, then the check that the
/// detector accepted it, then the start of the detector.
pub open spec fn apply_script(start_mm: u32, end_mm: u32) -> Seq<Op> {
    seq![
        command(registers::CMD_PRESENCE_RESET_MODULE),
        Op::Sleep { ms: registers::PRESENCE_RESET_SETTLE_MS },
        await_not_busy(),
        write(registers::PRESENCE_REG_AUTO_PROFILE_ADDRESS, 0),
        write(registers::PRESENCE_REG_AUTO_STEP_LENGTH_ADDRESS, 0),
        write(registers::PRESENCE_REG_MANUAL_PROFILE_ADDRESS, spec_applied_profile(end_mm)),
        write(registers::PRESENCE_REG_MANUAL_STEP_LENGTH_ADDRESS, spec_optimal_step_length(end_mm)),
        write(
            registers::PRESENCE_REG_SIGNAL_QUALITY_ADDRESS,
            registers::PRESENCE_SIGNAL_QUALITY_DEFAULT,
        ),
        write(registers::PRESENCE_REG_START_ADDRESS, start_mm),
        write(registers::PRESENCE_REG_END_ADDRESS, end_mm),
        command(registers::CMD_PRESENCE_APPLY_CONFIGURATION),
        await_not_busy(),
        Op::Check { app: Application::Presence, blame: Blame::Configuration },
        command(registers::CMD_PRESENCE_START_DETECTOR),
        await_not_busy(),
    ]
}

/// Apply-configuration alone, with the check that the detector accepted it.
pub open spec fn apply_configuration_script() -> Seq<Op> {
    seq![
        command(registers::CMD_PRESENCE_APPLY_CONFIGURATION),
        await_not_busy(),
        Op::Check { app: Application::Presence, blame: Blame::Configuration },
    ]
}

/// The start of the detector, with the check that it started.
pub open spec fn start_script() -> Seq<Op> {
    seq![
        command(registers::CMD_PRESENCE_START_DETECTOR),
        await_not_busy(),
        Op::Check { app: Application::Presence, blame: Blame::DetectorStart },
    ]
}

/// The stop of the detector.
pub open spec fn stop_script() -> Seq<Op> {
    seq![command(registers::CMD_PRESENCE_STOP_DETECTOR), await_not_busy()]
}

/// A module reset and the time the application needs after it.
pub open spec fn reset_script() -> Seq<Op> {
    seq![
        write(registers::PRESENCE_REG_COMMAND_ADDRESS, registers::CMD_PRESENCE_RESET_MODULE),
        Op::Sleep { ms: registers::PRESENCE_RESET_SETTLE_MS },
    ]
}

/// The wait for a detector that is neither busy nor in error, five seconds
/// at most.
pub open spec fn await_settled() -> Op {
    Op::Await {
        condition: Condition::Settled { app: Application::Presence },
        timeout_ms: registers::MEASUREMENT_TIMEOUT_MS,
        interval_ms: registers::POLL_INTERVAL_MS,
    }
}

/// The wait until the detector is neither busy nor in error, and the reads
/// of the four result registers.
pub open spec fn measure_script() -> Seq<Op> {
    seq![
        await_settled(),
        Op::Read { address: registers::REG_PRESENCE_RESULT },
        Op::Read { address: registers::REG_PRESENCE_DISTANCE },
        Op::Read { address: registers::REG_INTRA_PRESENCE_SCORE },
        Op::Read { address: registers::REG_INTER_PRESENCE_SCORE },
    ]
}

/// The measurement that the four result registers amount to. A result
/// word with the detector-error bit is rejected.
pub open spec fn spec_decode(result: u32, distance_mm: u32, intra: u32, inter: u32) -> Result<
    PresenceMeasurement,
    RadarError,
> {
    if result & registers::PRESENCE_RESULT_DETECTOR_ERROR != 0 {
        Err(RadarError::DeviceError { fault: DeviceFault::PresenceDetectorError })
    } else {
        Ok(
            PresenceMeasurement {
                presence_detected: result & registers::PRESENCE_RESULT_DETECTED != 0,
                presence_distance_mm: distance_mm,
                intra_presence_score: intra,
                inter_presence_score: inter,
            },
        )
    }
}

#[verifier::when_used_as_spec(spec_decode)]
pub fn decode(result: u32, distance_mm: u32, intra: u32, inter: u32) -> (r: Result<
    PresenceMeasurement,
    RadarError,
>)
    ensures
        r == spec_decode(result, distance_mm, intra, inter),
{
    if result & registers::PRESENCE_RESULT_DETECTOR_ERROR != 0 {
        Err(RadarError::DeviceError { fault: DeviceFault::PresenceDetectorError })
    } else {
        Ok(
            PresenceMeasurement {
                presence_detected: result & registers::PRESENCE_RESULT_DETECTED != 0,
                presence_distance_mm: distance_mm,
                intra_presence_score: intra,
                inter_presence_score: inter,
            },
        )
    }
}

/// What the detector is doing.
#[derive(Clone, Copy, Debug, PartialEq, Eq, Structural)]
pub enum PresencePhase {
    Idle,
    /// An operation without a result.
    Working,
    /// The reads of the result registers.
    Measuring,
}

/// The presence detector and the operation it is carrying out.
pub struct PresenceDetector {
    runner: Runner,
    phase: PresencePhase,
}

/// The state of a `PresenceDetector`.
pub struct PresenceState {
    pub runner: RunnerState,
    pub phase: PresencePhase,
}

impl PresenceState {
    /// A detector that is doing nothing.
    pub open spec fn fresh() -> PresenceState {
        PresenceState { runner: RunnerState::fresh(Seq::empty()), phase: PresencePhase::Idle }
    }

    /// Begins `script` for the purpose `phase`.
    pub open spec fn launch(phase: PresencePhase, script: Seq<Op>, now_ms: u64) -> (
        PresenceState,
        Step,
    ) {
        let (runner, progress) = RunnerState::fresh(script).start(now_ms);
        match progress {
            Progress::Ask { request } => (PresenceState { runner, phase }, Step::Ask { request }),
            Progress::Complete => (
                PresenceState { runner, phase: PresencePhase::Idle },
                Step::Finished { outcome: Outcome::Done },
            ),
            Progress::Failed { error } => (
                PresenceState { runner, phase: PresencePhase::Idle },
                Step::Failed { error },
            ),
        }
    }

    /// What follows when the sequence in execution has completed.
    pub open spec fn completed(self, runner: RunnerState) -> (PresenceState, Step) {
        let idle = PresenceState { runner, phase: PresencePhase::Idle };
        match self.phase {
            PresencePhase::Measuring => if runner.words.len() != 4 {
                (idle, Step::Failed { error: RadarError::InvalidResponse })
            } else {
                match decode(runner.words[0], runner.words[1], runner.words[2], runner.words[3]) {
                    Ok(presence) => (
                        idle,
                        Step::Finished { outcome: Outcome::Presence { presence } },
                    ),
                    Err(error) => (idle, Step::Failed { error }),
                }
            },
            _ => (idle, Step::Finished { outcome: Outcome::Done }),
        }
    }

    /// The state and the next step after the host's reply.
    pub open spec fn resume(self, now_ms: u64, reply: Reply) -> (PresenceState, Step) {
        let (runner, progress) = self.runner.resume(now_ms, reply);
        match progress {
            Progress::Ask { request } => (PresenceState { runner, ..self }, Step::Ask { request }),
            Progress::Failed { error } => (
                PresenceState { runner, phase: PresencePhase::Idle },
                Step::Failed { error },
            ),
            Progress::Complete => self.completed(runner),
        }
    }
}

impl View for PresenceDetector {
    type V = PresenceState;

    closed spec fn view(&self) -> PresenceState {
        PresenceState { runner: self.runner@, phase: self.phase }
    }
}

fn build_thresholds(
    intra_threshold: u32,
    inter_threshold: u32,
    frame_rate: u32,
    profile: u32,
    step_length: u32,
    auto_profile_enabled: bool,
    start_mm: u32,
    end_mm: u32,
) -> (script: Vec<Op>)
    ensures
        script@ == thresholds_script(
            intra_threshold,
            inter_threshold,
            frame_rate,
            profile,
            step_length,
            auto_profile_enabled,
            start_mm,
            end_mm,
        ),
{
    let on: u32 = if auto_profile_enabled {
        1
    } else {
        0
    };
    let mut script: Vec<Op> = Vec::new();
    script.push(Op::Write { address: registers::PRESENCE_REG_START_ADDRESS, value: start_mm });
    script.push(Op::Write { address: registers::PRESENCE_REG_END_ADDRESS, value: end_mm });
    script.push(Op::Write { address: registers::PRESENCE_REG_AUTO_PROFILE_ADDRESS, value: on });
    script.push(Op::Write { address: registers::PRESENCE_REG_AUTO_STEP_LENGTH_ADDRESS, value: on });
    if !auto_profile_enabled {
        script.push(
            Op::Write { address: registers::PRESENCE_REG_MANUAL_PROFILE_ADDRESS, value: profile },
        );
        script.push(
            Op::Write {
                address: registers::PRESENCE_REG_MANUAL_STEP_LENGTH_ADDRESS,
                value: step_length,
            },
        );
    }
    script.push(Op::Write { address: registers::PRESENCE_REG_AUTO_SUBSWEEPS_ADDRESS, value: 1 });
    script.push(
        Op::Write {
            address: registers::PRESENCE_REG_HWAAS_ADDRESS,
            value: registers::PRESENCE_HWAAS_DEFAULT,
        },
    );
    script.push(
        Op::Write {
            address: registers::PRESENCE_REG_SIGNAL_QUALITY_ADDRESS,
            value: registers::PRESENCE_SIGNAL_QUALITY_DEFAULT,
        },
    );
    script.push(
        Op::Write {
            address: registers::PRESENCE_REG_INTRA_DETECTION_THRESHOLD_ADDRESS,
            value: intra_threshold,
        },
    );
    script.push(
        Op::Write {
            address: registers::PRESENCE_REG_INTER_DETECTION_THRESHOLD_ADDRESS,
            value: inter_threshold,
        },
    );
    script.push(Op::Write { address: registers::PRESENCE_REG_FRAME_RATE_ADDRESS, value: frame_rate });
    assert(script@ =~= thresholds_script(
        intra_threshold,
        inter_threshold,
        frame_rate,
        profile,
        step_length,
        auto_profile_enabled,
        start_mm,
        end_mm,
    ));
    script
}

fn exec_await_not_busy() -> (op: Op)
    ensures
        op == await_not_busy(),
{
    Op::Await {
        condition: Condition::NotBusy,
        timeout_ms: registers::BUSY_TIMEOUT_MS,
        interval_ms: registers::POLL_INTERVAL_MS,
    }
}

fn exec_command(code: u32) -> (op: Op)
    ensures
        op == command(code),
{
    Op::Command { app: Application::Presence, code }
}

fn build_apply(start_mm: u32, end_mm: u32) -> (script: Vec<Op>)
    ensures
        script@ == apply_script(start_mm, end_mm),
{
    let profile: u32 = if end_mm >= 6500 {
        5
    } else {
        4
    };
    let mut script: Vec<Op> = Vec::new();
    script.push(exec_command(registers::CMD_PRESENCE_RESET_MODULE));
    script.push(Op::Sleep { ms: registers::PRESENCE_RESET_SETTLE_MS });
    script.push(exec_await_not_busy());
    script.push(Op::Write { address: registers::PRESENCE_REG_AUTO_PROFILE_ADDRESS, value: 0 });
    script.push(Op::Write { address: registers::PRESENCE_REG_AUTO_STEP_LENGTH_ADDRESS, value: 0 });
    script.push(
        Op::Write { address: registers::PRESENCE_REG_MANUAL_PROFILE_ADDRESS, value: profile },
    );
    script.push(
        Op::Write {
            address: registers::PRESENCE_REG_MANUAL_STEP_LENGTH_ADDRESS,
            value: PresenceDetector::calculate_optimal_step_length(end_mm),
        },
    );
    script.push(
        Op::Write {
            address: registers::PRESENCE_REG_SIGNAL_QUALITY_ADDRESS,
            value: registers::PRESENCE_SIGNAL_QUALITY_DEFAULT,
        },
    );
    script.push(Op::Write { address: registers::PRESENCE_REG_START_ADDRESS, value: start_mm });
    script.push(Op::Write { address: registers::PRESENCE_REG_END_ADDRESS, value: end_mm });
    script.push(exec_command(registers::CMD_PRESENCE_APPLY_CONFIGURATION));
    script.push(exec_await_not_busy());
    script.push(Op::Check { app: Application::Presence, blame: Blame::Configuration });
    script.push(exec_command(registers::CMD_PRESENCE_START_DETECTOR));
    script.push(exec_await_not_busy());
    assert(script@ =~= apply_script(start_mm, end_mm));
    script
}

impl PresenceDetector {
    /// A detector that is doing nothing.
    pub fn new() -> (detector: PresenceDetector)
        ensures
            detector@ == PresenceState::fresh(),
    {
        PresenceDetector { runner: Runner::new(Vec::new()), phase: PresencePhase::Idle }
    }

    fn launch(&mut self, phase: PresencePhase, script: Vec<Op>, now_ms: u64) -> (step: Step)
        ensures
            (final(self)@, step) == PresenceState::launch(phase, script@, now_ms),
    {
        let mut runner = Runner::new(script);
        let progress = runner.start(now_ms);
        self.runner = runner;
        match progress {
            Progress::Ask { request } => {
                self.phase = phase;
                Step::Ask { request }
            },
            Progress::Complete => {
                self.phase = PresencePhase::Idle;
                Step::Finished { outcome: Outcome::Done }
            },
            Progress::Failed { error } => {
                self.phase = PresencePhase::Idle;
                Step::Failed { error }
            },
        }
    }

    /// The profile for a range from `start_mm` to `end_mm`. Only the end
    /// of the range matters.
    pub fn calculate_optimal_profile(start_mm: u32, end_mm: u32) -> (profile: u32)
        ensures
            profile == spec_optimal_profile(end_mm),
            1 <= profile <= 5,
    {
        if end_mm <= 700 {
            1
        } else if end_mm <= 2000 {
            2
        } else if end_mm <= 3500 {
            3
        } else if end_mm <= 6000 {
            4
        } else {
            5
        }
    }

    /// The step length for a range that ends at `end_mm`.
    pub fn calculate_optimal_step_length(end_mm: u32) -> (step_length: u32)
        ensures
            step_length == spec_optimal_step_length(end_mm),
            registers::PRESENCE_STEP_LENGTH_MIN <= step_length <= registers::PRESENCE_STEP_LENGTH_MAX,
    {
        let sixtieth = end_mm / 60;
        if sixtieth < registers::PRESENCE_STEP_LENGTH_MIN {
            registers::PRESENCE_STEP_LENGTH_MIN
        } else if sixtieth > registers::PRESENCE_STEP_LENGTH_MAX {
            registers::PRESENCE_STEP_LENGTH_MAX
        } else {
            sixtieth
        }
    }

    /// Selects profile and step length for a range: for the custom range
    /// where both its start and its length are given, else for the preset.
    /// Never fails; the step length always lies within 12 and 120.
    pub fn configure_range(
        &self,
        range: PresenceRange,
        custom_start_mm: Option<u32>,
        custom_length_mm: Option<u32>,
    ) -> (selection: Result<(u32, u32), RadarError>)
        ensures
            selection == Ok::<(u32, u32), RadarError>(
                (
                    spec_optimal_profile(selected_end_mm(range, custom_start_mm, custom_length_mm)),
                    spec_optimal_step_length(
                        selected_end_mm(range, custom_start_mm, custom_length_mm),
                    ),
                ),
            ),
            selection matches Ok(pair) && 1 <= pair.0 <= 5 && 12 <= pair.1 <= 120,
    {
        let (start_mm, end_mm) = match (custom_start_mm, custom_length_mm) {
            (Some(start), Some(length)) => {
                let end = if length > u32::MAX - start {
                    u32::MAX
                } else {
                    start + length
                };
                (start, end)
            },
            _ => (range.start_mm(), range.end_mm()),
        };
        Ok(
            (
                PresenceDetector::calculate_optimal_profile(start_mm, end_mm),
                PresenceDetector::calculate_optimal_step_length(end_mm),
            ),
        )
    }

    /// Whether a status word shows the busy bit.
    pub fn is_busy(status: u32) -> (busy: bool)
        ensures
            busy == registers::status_busy(status),
    {
        registers::status_busy(status)
    }

    /// Whether a status word shows any error bit of the presence detector.
    pub fn has_errors(status: u32) -> (errors: bool)
        ensures
            errors == Application::Presence.has_errors(status),
    {
        Application::Presence.has_errors(status)
    }

    /// Whether a status word shows that the detector accepted its
    /// configuration: it does when no error bit is set.
    pub fn configuration_ok(status: u32) -> (ok: bool)
        ensures
            ok == !Application::Presence.has_errors(status),
    {
        !Application::Presence.has_errors(status)
    }

    /// Waits until the busy bit is clear, five seconds at most.
    pub fn wait_for_not_busy(&mut self, now_ms: u64) -> (step: Step)
        ensures
            (final(self)@, step) == PresenceState::launch(
                PresencePhase::Working,
                seq![await_not_busy()],
                now_ms,
            ),
    {
        let mut script: Vec<Op> = Vec::new();
        script.push(exec_await_not_busy());
        assert(script@ =~= seq![await_not_busy()]);
        self.launch(PresencePhase::Working, script, now_ms)
    }

    /// Writes range, profile selection, thresholds and frame rate.
    pub fn configure_thresholds(
        &mut self,
        intra_threshold: u32,
        inter_threshold: u32,
        frame_rate: u32,
        profile: u32,
        step_length: u32,
        auto_profile_enabled: bool,
        start_mm: u32,
        end_mm: u32,
        now_ms: u64,
    ) -> (step: Step)
        ensures
            (final(self)@, step) == PresenceState::launch(
                PresencePhase::Working,
                thresholds_script(
                    intra_threshold,
                    inter_threshold,
                    frame_rate,
                    profile,
                    step_length,
                    auto_profile_enabled,
                    start_mm,
                    end_mm,
                ),
                now_ms,
            ),
    {
        let script = build_thresholds(
            intra_threshold,
            inter_threshold,
            frame_rate,
            profile,
            step_length,
            auto_profile_enabled,
            start_mm,
            end_mm,
        );
        self.launch(PresencePhase::Working, script, now_ms)
    }

    /// Resets the module, writes profile, step length and range, applies
    /// the configuration, checks it and starts the detector.
    pub fn apply_complete_configuration(
        &mut self,
        final_start_mm: u32,
        final_end_mm: u32,
        now_ms: u64,
    ) -> (step: Step)
        ensures
            (final(self)@, step) == PresenceState::launch(
                PresencePhase::Working,
                apply_script(final_start_mm, final_end_mm),
                now_ms,
            ),
    {
        self.launch(PresencePhase::Working, build_apply(final_start_mm, final_end_mm), now_ms)
    }

    /// Issues one command under the busy/error discipline.
    pub fn write_command_safe(&mut self, code: u32, now_ms: u64) -> (step: Step)
        ensures
            (final(self)@, step) == PresenceState::launch(
                PresencePhase::Working,
                seq![command(code)],
                now_ms,
            ),
    {
        let mut script: Vec<Op> = Vec::new();
        script.push(exec_command(code));
        assert(script@ =~= seq![command(code)]);
        self.launch(PresencePhase::Working, script, now_ms)
    }

    /// Applies the configuration and checks that the detector accepted it.
    pub fn apply_configuration(&mut self, now_ms: u64) -> (step: Step)
        ensures
            (final(self)@, step) == PresenceState::launch(
                PresencePhase::Working,
                apply_configuration_script(),
                now_ms,
            ),
    {
        let mut script: Vec<Op> = Vec::new();
        script.push(exec_command(registers::CMD_PRESENCE_APPLY_CONFIGURATION));
        script.push(exec_await_not_busy());
        script.push(Op::Check { app: Application::Presence, blame: Blame::Configuration });
        assert(script@ =~= apply_configuration_script());
        self.launch(PresencePhase::Working, script, now_ms)
    }

    /// Starts the detector and checks that it started.
    pub fn start_detector(&mut self, now_ms: u64) -> (step: Step)
        ensures
            (final(self)@, step) == PresenceState::launch(
                PresencePhase::Working,
                start_script(),
                now_ms,
            ),
    {
        let mut script: Vec<Op> = Vec::new();
        script.push(exec_command(registers::CMD_PRESENCE_START_DETECTOR));
        script.push(exec_await_not_busy());
        script.push(Op::Check { app: Application::Presence, blame: Blame::DetectorStart });
        assert(script@ =~= start_script());
        self.launch(PresencePhase::Working, script, now_ms)
    }

    /// Stops the detector.
    pub fn stop_detector(&mut self, now_ms: u64) -> (step: Step)
        ensures
            (final(self)@, step) == PresenceState::launch(
                PresencePhase::Working,
                stop_script(),
                now_ms,
            ),
    {
        let mut script: Vec<Op> = Vec::new();
        script.push(exec_command(registers::CMD_PRESENCE_STOP_DETECTOR));
        script.push(exec_await_not_busy());
        assert(script@ =~= stop_script());
        self.launch(PresencePhase::Working, script, now_ms)
    }

    /// Resets the module and waits until the application is back.
    pub fn reset_module(&mut self, now_ms: u64) -> (step: Step)
        ensures
            (final(self)@, step) == PresenceState::launch(
                PresencePhase::Working,
                reset_script(),
                now_ms,
            ),
    {
        let mut script: Vec<Op> = Vec::new();
        script.push(
            Op::Write {
                address: registers::PRESENCE_REG_COMMAND_ADDRESS,
                value: registers::CMD_PRESENCE_RESET_MODULE,
            },
        );
        script.push(Op::Sleep { ms: registers::PRESENCE_RESET_SETTLE_MS });
        assert(script@ =~= reset_script());
        self.launch(PresencePhase::Working, script, now_ms)
    }

    /// Begins a measurement.
    pub fn measure(&mut self, now_ms: u64) -> (step: Step)
        ensures
            (final(self)@, step) == PresenceState::launch(
                PresencePhase::Measuring,
                measure_script(),
                now_ms,
            ),
    {
        let mut script: Vec<Op> = Vec::new();
        script.push(
            Op::Await {
                condition: Condition::Settled { app: Application::Presence },
                timeout_ms: registers::MEASUREMENT_TIMEOUT_MS,
                interval_ms: registers::POLL_INTERVAL_MS,
            },
        );
        script.push(Op::Read { address: registers::REG_PRESENCE_RESULT });
        script.push(Op::Read { address: registers::REG_PRESENCE_DISTANCE });
        script.push(Op::Read { address: registers::REG_INTRA_PRESENCE_SCORE });
        script.push(Op::Read { address: registers::REG_INTER_PRESENCE_SCORE });
        assert(script@ =~= measure_script());
        self.launch(PresencePhase::Measuring, script, now_ms)
    }

    /// Takes the host's reply to the outstanding request and returns what
    /// the operation in progress wants next, or how it ended.
    pub fn resume(&mut self, now_ms: u64, reply: Reply) -> (step: Step)
        ensures
            (final(self)@, step) == old(self)@.resume(now_ms, reply),
    {
        let progress = self.runner.resume(now_ms, reply);
        match progress {
            Progress::Ask { request } => Step::Ask { request },
            Progress::Failed { error } => {
                self.phase = PresencePhase::Idle;
                Step::Failed { error }
            },
            Progress::Complete => {
                let phase = self.phase;
                self.phase = PresencePhase::Idle;
                match phase {
                    PresencePhase::Measuring => {
                        let words = self.runner.words();
                        if words.len() != 4 {
                            Step::Failed { error: RadarError::InvalidResponse }
                        } else {
                            match decode(words[0], words[1], words[2], words[3]) {
                                Ok(presence) => Step::Finished {
                                    outcome: Outcome::Presence { presence },
                                },
                                Err(error) => Step::Failed { error },
                            }
                        }
                    },
                    _ => Step::Finished { outcome: Outcome::Done },
                }
            },
        }
    }
}

/// In the sequence that applies a range, the module reset comes first and
/// the range is written after it and before apply-configuration, which in
/// turn comes before the start of the detector.
pub proof fn lemma_range_follows_reset(start_mm: u32, end_mm: u32)
    ensures
        apply_script(start_mm, end_mm)[0] == command(registers::CMD_PRESENCE_RESET_MODULE),
        apply_script(start_mm, end_mm)[8] == write(registers::PRESENCE_REG_START_ADDRESS, start_mm),
        apply_script(start_mm, end_mm)[9] == write(registers::PRESENCE_REG_END_ADDRESS, end_mm),
        apply_script(start_mm, end_mm)[10] == command(registers::CMD_PRESENCE_APPLY_CONFIGURATION),
        apply_script(start_mm, end_mm)[13] == command(registers::CMD_PRESENCE_START_DETECTOR),
        forall|i: int|
            0 <= i < apply_script(start_mm, end_mm).len() && i != 0 ==> apply_script(
                start_mm,
                end_mm,
            )[i] != command(registers::CMD_PRESENCE_RESET_MODULE),
{
}

/// The presets and the table. The short preset selects profile 1 with
/// step length 12, the medium one profile 2 with step length 33, the long
/// one profile 4 with step length 91.
pub proof fn lemma_preset_selections()
    ensures
        spec_optimal_profile(PresenceRange::Short.end_mm()) == 1,
        spec_optimal_step_length(PresenceRange::Short.end_mm()) == 12,
        spec_optimal_profile(PresenceRange::Medium.end_mm()) == 2,
        spec_optimal_step_length(PresenceRange::Medium.end_mm()) == 33,
        spec_optimal_profile(PresenceRange::Long.end_mm()) == 4,
        spec_optimal_step_length(PresenceRange::Long.end_mm()) == 91,
{
}

/// The step length is within 12 and 120 for every range, and the profile
/// never falls as the range grows.
pub proof fn lemma_selection_bounds(end_mm: u32, farther_mm: u32)
    requires
        end_mm <= farther_mm,
    ensures
        12 <= spec_optimal_step_length(end_mm) <= 120,
        1 <= spec_optimal_profile(end_mm) <= spec_optimal_profile(farther_mm) <= 5,
{
}

/// How strong the motion behind a measurement is.
#[derive(Clone, Copy, Debug, PartialEq, Eq, Structural)]
pub enum SignalQuality {
    Strong,
    Medium,
    Weak,
    Absent,
}

/// How sure a detection is.
#[derive(Clone, Copy, Debug, PartialEq, Eq, Structural)]
pub enum Confidence {
    High,
    Medium,
    Low,
    Absent,
}

impl PresenceMeasurement {
    /// The larger of the two scores, in thousandths.
    #[verifier::allow_in_spec]
    pub fn max_score(&self) -> u32
        returns
            (if self.intra_presence_score >= self.inter_presence_score {
                self.intra_presence_score
            } else {
                self.inter_presence_score
            }),
    {
        if self.intra_presence_score >= self.inter_presence_score {
            self.intra_presence_score
        } else {
            self.inter_presence_score
        }
    }

    /// Strong above a score of 2.0, medium above 1.0, weak above 0.5.
    #[verifier::allow_in_spec]
    pub fn signal_quality(&self) -> SignalQuality
        returns
            (if self.max_score() > 2000 {
                SignalQuality::Strong
            } else if self.max_score() > 1000 {
                SignalQuality::Medium
            } else if self.max_score() > 500 {
                SignalQuality::Weak
            } else {
                SignalQuality::Absent
            }),
    {
        if self.max_score() > 2000 {
            SignalQuality::Strong
        } else if self.max_score() > 1000 {
            SignalQuality::Medium
        } else if self.max_score() > 500 {
            SignalQuality::Weak
        } else {
            SignalQuality::Absent
        }
    }

    /// None without a detection; else high above a score of 3.0, medium
    /// above 1.5, low below.
    #[verifier::allow_in_spec]
    pub fn confidence(&self) -> Confidence
        returns
            (if !self.presence_detected {
                Confidence::Absent
            } else if self.max_score() > 3000 {
                Confidence::High
            } else if self.max_score() > 1500 {
                Confidence::Medium
            } else {
                Confidence::Low
            }),
    {
        if !self.presence_detected {
            Confidence::Absent
        } else if self.max_score() > 3000 {
            Confidence::High
        } else if self.max_score() > 1500 {
            Confidence::Medium
        } else {
            Confidence::Low
        }
    }
}

impl SignalQuality {
    pub fn label(self) -> (name: &'static str)
        ensures
            name@ == (match self {
                SignalQuality::Strong => "STRONG"@,
                SignalQuality::Medium => "MEDIUM"@,
                SignalQuality::Weak => "WEAK"@,
                SignalQuality::Absent => "NONE"@,
            }),
    {
        match self {
            SignalQuality::Strong => "STRONG",
            SignalQuality::Medium => "MEDIUM",
            SignalQuality::Weak => "WEAK",
            SignalQuality::Absent => "NONE",
        }
    }
}

impl Confidence {
    pub fn label(self) -> (name: &'static str)
        ensures
            name@ == (match self {
                Confidence::High => "HIGH"@,
                Confidence::Medium => "MEDIUM"@,
                Confidence::Low => "LOW"@,
                Confidence::Absent => "NONE"@,
            }),
    {
        match self {
            Confidence::High => "HIGH",
            Confidence::Medium => "MEDIUM",
            Confidence::Low => "LOW",
            Confidence::Absent => "NONE",
        }
    }
}

/// The sequences of the presence detector issue their commands under the
/// busy/error discipline only.
pub proof fn lemma_presence_is_disciplined(start_mm: u32, end_mm: u32)
    ensures
        crate::ops::disciplined(apply_script(start_mm, end_mm)),
        crate::ops::disciplined(apply_configuration_script()),
        crate::ops::disciplined(start_script()),
        crate::ops::disciplined(stop_script()),
        crate::ops::disciplined(measure_script()),
{
}

impl PresenceState {
    /// Whether the sequence in execution is the one that the phase calls
    /// for.
    pub open spec fn well_formed(self) -> bool {
        self.phase == PresencePhase::Measuring ==> self.runner.ops == measure_script()
    }
}

/// A measurement begins well-formed, with a read of the status register.
pub proof fn lemma_measure_begins_well_formed(now_ms: u64)
    ensures
        PresenceState::launch(PresencePhase::Measuring, measure_script(), now_ms).0.well_formed(),
        PresenceState::launch(PresencePhase::Measuring, measure_script(), now_ms).0.phase
            == PresencePhase::Measuring,
        PresenceState::launch(PresencePhase::Measuring, measure_script(), now_ms).1 == (Step::Ask {
            request: crate::ops::status_read(),
        }),
{
}

/// A well-formed detector stays well-formed.
pub proof fn lemma_resume_keeps_well_formed(state: PresenceState, now_ms: u64, reply: Reply)
    requires
        state.well_formed(),
    ensures
        state.resume(now_ms, reply).0.well_formed(),
{
}

/// A busy detector is not measured. During a measurement the first result
/// register is asked for only in answer to a status word that is neither
/// busy nor in error, and no register is read before that.
pub proof fn lemma_measure_waits_until_settled(state: PresenceState, now_ms: u64, reply: Reply)
    requires
        state.well_formed(),
        state.phase == PresencePhase::Measuring,
        state.resume(now_ms, reply).1 == (Step::Ask {
            request: crate::host::Request::ReadRegister { address: registers::REG_PRESENCE_RESULT },
        }),
    ensures
        reply matches Reply::Word { value: status } && !registers::status_busy(status)
            && !Application::Presence.has_errors(status),
        state.runner.pc == 0,
        state.resume(now_ms, reply).0.runner.words == state.runner.words,
{
}

/// What a status word does to a measurement that waits for the detector:
/// a busy one puts the reads off by one poll interval, whatever its other
/// bits say, and one with an error bit ends the measurement.
pub proof fn lemma_busy_status_puts_the_reads_off(
    state: PresenceState,
    now_ms: u64,
    status: u32,
)
    requires
        state.well_formed(),
        state.phase == PresencePhase::Measuring,
        state.runner.pc == 0,
        state.runner.stage == crate::ops::Stage::PollStatus,
    ensures
        registers::status_busy(status) ==> state.resume(now_ms, Reply::Word { value: status }).1
            == (Step::Ask {
            request: crate::host::Request::Sleep { ms: registers::POLL_INTERVAL_MS },
        }),
        !registers::status_busy(status) && Application::Presence.has_errors(status)
            ==> state.resume(now_ms, Reply::Word { value: status }).1 == (Step::Failed {
            error: RadarError::DeviceError { fault: DeviceFault::MeasurementFailed { status } },
        }),
        !registers::status_busy(status) && !Application::Presence.has_errors(status)
            ==> state.resume(now_ms, Reply::Word { value: status }).1 == (Step::Ask {
            request: crate::host::Request::ReadRegister { address: registers::REG_PRESENCE_RESULT },
        }),
{
}

/// The detector returns no partial data. A measurement ends well only
/// with the read of the last of the four result registers, and with the
/// measurement that the four words decode to.
pub proof fn lemma_measure_returns_whole_measurements(
    state: PresenceState,
    now_ms: u64,
    reply: Reply,
)
    requires
        state.well_formed(),
        state.phase == PresencePhase::Measuring,
        state.resume(now_ms, reply).1 is Finished,
    ensures
        state.runner.pc == 4,
        state.runner.words.len() == 3,
        reply matches Reply::Word { value: inter } && spec_decode(
            state.runner.words[0],
            state.runner.words[1],
            state.runner.words[2],
            inter,
        ) == Ok::<PresenceMeasurement, RadarError>(
            state.resume(now_ms, reply).1->outcome->presence,
        ),
        state.resume(now_ms, reply).1->outcome is Presence,
{
}

/// The writes of the presence configuration leave the command register
/// alone.
pub proof fn lemma_thresholds_are_disciplined(
    intra_threshold: u32,
    inter_threshold: u32,
    frame_rate: u32,
    profile: u32,
    step_length: u32,
    auto_profile_enabled: bool,
    start_mm: u32,
    end_mm: u32,
)
    ensures
        crate::ops::disciplined(
            thresholds_script(
                intra_threshold,
                inter_threshold,
                frame_rate,
                profile,
                step_length,
                auto_profile_enabled,
                start_mm,
                end_mm,
            ),
        ),
{
}

} // verus!
