//! The distance detector.

use vstd::prelude::*;
use crate::config::XM125Config;
use crate::error::ParameterFault;
use crate::error::RadarError;
use crate::host::Reply;
use crate::ops::Op;
use crate::outcome::Outcome;
use crate::outcome::Step;
use crate::registers;
use crate::runner::Progress;
use crate::runner::Runner;
use crate::runner::RunnerState;
use crate::status::Application;
use crate::status::Condition;

verus! {

/// One distance measurement: the strongest peak.
#[derive(Clone, Copy, Debug, PartialEq, Eq, Structural)]
pub struct DistanceMeasurement {
    /// Distance of the peak in millimetres; 0 when no peak was found.
    pub distance_mm: u32,
    /// Strength of the peak in thousandths.
    pub strength: u32,
    /// Sensor temperature in degrees Celsius.
    pub temperature: i16,
    /// Number of peaks found.
    pub num_distances: u32,
    /// Whether an object sits at the near edge of the range.
    pub near_start_edge: bool,
    /// The detector's measure-error flag. It is also set when nothing was
    /// detected, so it does not fail the measurement.
    pub measure_error: bool,
}

/// The packed result word of the distance detector.
#[derive(Clone, Copy, Debug, PartialEq, Eq, Structural)]
pub struct DistanceResult {
    /// Bits 0 to 3.
    pub num_distances: u32,
    /// Bit 8.
    pub near_start_edge: bool,
    /// Bit 9.
    pub calibration_needed: bool,
    /// Bit 10.
    pub measure_error: bool,
    /// Bits 16 to 31, a signed number.
    pub temperature: i16,
}

/// The signed value of the low 16 bits in two's complement.
pub open spec fn spec_signed16(raw: u32) -> i16 {
    if raw % 0x1_0000 >= 0x8000 {
        (raw % 0x1_0000 - 0x1_0000) as i16
    } else {
        (raw % 0x1_0000) as i16
    }
}

#[verifier::when_used_as_spec(spec_signed16)]
pub fn signed16(raw: u32) -> (value: i16)
    ensures
        value == spec_signed16(raw),
{
    let low = raw % 0x1_0000;
    if low >= 0x8000 {
        (low as i32 - 0x1_0000) as i16
    } else {
        low as i16
    }
}

/// The fields of a result word.
pub open spec fn spec_decode_result(word: u32) -> DistanceResult {
    DistanceResult {
        num_distances: word & 0xF,
        near_start_edge: word & 0x100 != 0,
        calibration_needed: word & 0x200 != 0,
        measure_error: word & 0x400 != 0,
        temperature: signed16(word / 0x1_0000),
    }
}

#[verifier::when_used_as_spec(spec_decode_result)]
pub fn decode_result(word: u32) -> (result: DistanceResult)
    ensures
        result == spec_decode_result(word),
{
    DistanceResult {
        num_distances: word & 0xF,
        near_start_edge: word & 0x100 != 0,
        calibration_needed: word & 0x200 != 0,
        measure_error: word & 0x400 != 0,
        temperature: signed16(word / 0x1_0000),
    }
}

/// The measurement that a result word and the registers of the first peak
/// amount to. Without a peak the distance is 0.
pub open spec fn spec_measurement(word: u32, peak_distance_mm: u32, peak_strength: u32) -> DistanceMeasurement {
    let result = decode_result(word);
    DistanceMeasurement {
        distance_mm: if result.num_distances > 0 {
            peak_distance_mm
        } else {
            0
        },
        strength: peak_strength,
        temperature: result.temperature,
        num_distances: result.num_distances,
        near_start_edge: result.near_start_edge,
        measure_error: result.measure_error,
    }
}

#[verifier::when_used_as_spec(spec_measurement)]
pub fn measurement(word: u32, peak_distance_mm: u32, peak_strength: u32) -> (m: DistanceMeasurement)
    ensures
        m == spec_measurement(word, peak_distance_mm, peak_strength),
{
    let result = decode_result(word);
    DistanceMeasurement {
        distance_mm: if result.num_distances > 0 {
            peak_distance_mm
        } else {
            0
        },
        strength: peak_strength,
        temperature: result.temperature,
        num_distances: result.num_distances,
        near_start_edge: result.near_start_edge,
        measure_error: result.measure_error,
    }
}

/// A register write that fails the sequence when the bus fails.
pub open spec fn write(address: u16, value: u32) -> Op {
    Op::Write { address, value }
}

/// The writes of a detection range.
pub open spec fn range_script(start_mm: u32, end_mm: u32) -> Seq<Op> {
    seq![write(registers::REG_START_CONFIG, start_mm), write(registers::REG_END_CONFIG, end_mm)]
}

/// The writes that set every tuning register to its documented default.
pub open spec fn defaults_script() -> Seq<Op> {
    seq![
        write(registers::REG_MAX_STEP_LENGTH, registers::DISTANCE_MAX_STEP_LENGTH_DEFAULT),
        write(
            registers::REG_CLOSE_RANGE_LEAKAGE_CANCELLATION,
            registers::DISTANCE_CLOSE_RANGE_LEAKAGE_CANCELLATION_DEFAULT,
        ),
        write(registers::REG_SIGNAL_QUALITY, registers::DISTANCE_SIGNAL_QUALITY_DEFAULT),
        write(registers::REG_MAX_PROFILE, registers::DISTANCE_MAX_PROFILE_DEFAULT),
        write(registers::REG_THRESHOLD_METHOD, registers::DISTANCE_THRESHOLD_METHOD_DEFAULT),
        write(registers::REG_PEAK_SORTING, registers::DISTANCE_PEAK_SORTING_DEFAULT),
        write(
            registers::REG_NUM_FRAMES_RECORDED_THRESHOLD,
            registers::DISTANCE_NUM_FRAMES_RECORDED_THRESHOLD_DEFAULT,
        ),
        write(
            registers::REG_FIXED_AMPLITUDE_THRESHOLD_VALUE,
            registers::DISTANCE_FIXED_AMPLITUDE_THRESHOLD_VALUE_DEFAULT,
        ),
        write(registers::REG_THRESHOLD_SENSITIVITY, registers::DISTANCE_THRESHOLD_SENSITIVITY_DEFAULT),
        write(registers::REG_REFLECTOR_SHAPE, registers::DISTANCE_REFLECTOR_SHAPE_DEFAULT),
        write(
            registers::REG_FIXED_STRENGTH_THRESHOLD_VALUE,
            registers::DISTANCE_FIXED_STRENGTH_THRESHOLD_VALUE_DEFAULT,
        ),
    ]
}

/// Start of the range that a configuration gives the detector: its own,
/// or the default where it has none.
#[verifier::allow_in_spec]
pub fn effective_start_mm(config: &XM125Config) -> u32
    returns
        (if config.start_mm > 0 {
            config.start_mm
        } else {
            registers::DISTANCE_START_DEFAULT
        }),
{
    if config.start_mm > 0 {
        config.start_mm
    } else {
        registers::DISTANCE_START_DEFAULT
    }
}

/// End of the range that a configuration gives the detector: its own
/// where that lies beyond the start, else the default.
#[verifier::allow_in_spec]
pub fn effective_end_mm(config: &XM125Config) -> u32
    returns
        (if config.end_mm() > effective_start_mm(config) {
            config.end_mm()
        } else {
            registers::DISTANCE_END_DEFAULT
        }),
{
    if config.end_mm() > effective_start_mm(config) {
        config.end_mm()
    } else {
        registers::DISTANCE_END_DEFAULT
    }
}

/// Sensitivity that a configuration gives the detector.
#[verifier::allow_in_spec]
pub fn effective_sensitivity(config: &XM125Config) -> u32
    returns
        (if config.threshold_sensitivity > 0 {
            config.threshold_sensitivity
        } else {
            registers::DISTANCE_THRESHOLD_SENSITIVITY_DEFAULT
        }),
{
    if config.threshold_sensitivity > 0 {
        config.threshold_sensitivity
    } else {
        registers::DISTANCE_THRESHOLD_SENSITIVITY_DEFAULT
    }
}

/// The writes of a whole configuration: range, sensitivity and profile
/// first, then the tuning registers at their defaults.
pub open spec fn configuration_script(config: XM125Config) -> Seq<Op> {
    seq![
        write(registers::REG_START_CONFIG, effective_start_mm(&config)),
        write(registers::REG_END_CONFIG, effective_end_mm(&config)),
        write(registers::REG_THRESHOLD_SENSITIVITY, effective_sensitivity(&config)),
        write(registers::REG_MAX_PROFILE, registers::DISTANCE_MAX_PROFILE_DEFAULT),
        write(registers::REG_MAX_STEP_LENGTH, registers::DISTANCE_MAX_STEP_LENGTH_DEFAULT),
        write(
            registers::REG_CLOSE_RANGE_LEAKAGE_CANCELLATION,
            registers::DISTANCE_CLOSE_RANGE_LEAKAGE_CANCELLATION_DEFAULT,
        ),
        write(registers::REG_SIGNAL_QUALITY, registers::DISTANCE_SIGNAL_QUALITY_DEFAULT),
        write(registers::REG_THRESHOLD_METHOD, registers::DISTANCE_THRESHOLD_METHOD_DEFAULT),
        write(registers::REG_PEAK_SORTING, registers::DISTANCE_PEAK_SORTING_DEFAULT),
        write(
            registers::REG_NUM_FRAMES_RECORDED_THRESHOLD,
            registers::DISTANCE_NUM_FRAMES_RECORDED_THRESHOLD_DEFAULT,
        ),
        write(
            registers::REG_FIXED_AMPLITUDE_THRESHOLD_VALUE,
            registers::DISTANCE_FIXED_AMPLITUDE_THRESHOLD_VALUE_DEFAULT,
        ),
        write(registers::REG_REFLECTOR_SHAPE, registers::DISTANCE_REFLECTOR_SHAPE_DEFAULT),
        write(
            registers::REG_FIXED_STRENGTH_THRESHOLD_VALUE,
            registers::DISTANCE_FIXED_STRENGTH_THRESHOLD_VALUE_DEFAULT,
        ),
    ]
}

/// Apply-config-and-calibrate under the busy/error discipline, then the
/// poll until the detector is calibrated.
pub open spec fn calibration_script() -> Seq<Op> {
    seq![
        Op::Command { app: Application::Distance, code: registers::CMD_APPLY_CONFIG_AND_CALIBRATE },
        Op::Await {
            condition: Condition::DistanceCalibrated,
            timeout_ms: registers::CALIBRATION_TIMEOUT_MS,
            interval_ms: registers::CALIBRATION_POLL_INTERVAL_MS,
        },
    ]
}

/// The measure command under the busy/error discipline, the poll until the
/// measurement is ready, and the read of the result word.
pub open spec fn measure_script() -> Seq<Op> {
    seq![
        Op::Command { app: Application::Distance, code: registers::CMD_MEASURE_DISTANCE },
        Op::Await {
            condition: Condition::MeasurementReady,
            timeout_ms: registers::MEASUREMENT_TIMEOUT_MS,
            interval_ms: registers::POLL_INTERVAL_MS,
        },
        Op::Read { address: registers::REG_DISTANCE_RESULT },
    ]
}

/// The calibration that a result word asks for, with the range written
/// first.
pub open spec fn recalibration_script(start_mm: u32, end_mm: u32) -> Seq<Op> {
    range_script(start_mm, end_mm) + calibration_script()
}

/// Another read of the result word, after a calibration.
pub open spec fn reread_script() -> Seq<Op> {
    seq![Op::Read { address: registers::REG_DISTANCE_RESULT }]
}

/// The reads of the first peak: its distance, then its strength.
pub open spec fn peaks_script() -> Seq<Op> {
    seq![
        Op::Read { address: registers::REG_PEAK0_DISTANCE },
        Op::Read { address: registers::REG_PEAK0_STRENGTH },
    ]
}

/// A module reset and the time the application needs after it.
pub open spec fn reset_script() -> Seq<Op> {
    seq![
        write(registers::REG_COMMAND, registers::CMD_RESET_MODULE),
        Op::Sleep { ms: registers::DISTANCE_RESET_SETTLE_MS },
    ]
}

/// What the detector is doing.
#[derive(Clone, Copy, Debug, PartialEq, Eq, Structural)]
pub enum DistancePhase {
    Idle,
    /// An operation without a result: configuring, calibrating, a reset, a
    /// single command or wait.
    Working,
    /// The measure command, the wait and the first read of the result word.
    Measuring,
    /// The calibration that the result word asked for.
    Recalibrating,
    /// The next read of the result word, after that calibration.
    Rereading,
    /// The reads of the peak registers, with the result word they belong to.
    ReadingPeaks { result: u32 },
}

/// The distance detector and the operation it is carrying out.
pub struct DistanceDetector {
    runner: Runner,
    phase: DistancePhase,
    start_mm: u32,
    end_mm: u32,
    recalibrated_at: Option<u64>,
}

/// The state of a `DistanceDetector`: its sequence in execution, what that
/// sequence is for, the range it calibrates with, and when it last
/// completed a calibration of its own within a measurement.
pub struct DistanceState {
    pub runner: RunnerState,
    pub phase: DistancePhase,
    pub start_mm: u32,
    pub end_mm: u32,
    /// The time of the status word that showed the detector calibrated, for
    /// the last calibration that the measurement begun last ran by itself;
    /// `None` if it ran none.
    pub recalibrated_at: Option<u64>,
}

impl DistanceState {
    /// A detector that has done nothing yet; it calibrates with the
    /// default range.
    pub open spec fn fresh() -> DistanceState {
        DistanceState {
            runner: RunnerState::fresh(Seq::empty()),
            phase: DistancePhase::Idle,
            start_mm: registers::DISTANCE_START_DEFAULT,
            end_mm: registers::DISTANCE_END_DEFAULT,
            recalibrated_at: None,
        }
    }

    /// Begins a measurement. What an earlier measurement recorded of its
    /// calibrations is forgotten.
    pub open spec fn begin_measure(self, now_ms: u64) -> (DistanceState, Step) {
        DistanceState { recalibrated_at: None, ..self }.launch(
            DistancePhase::Measuring,
            measure_script(),
            now_ms,
        )
    }

    /// Begins `script` for the purpose `phase`.
    pub open spec fn launch(self, phase: DistancePhase, script: Seq<Op>, now_ms: u64) -> (
        DistanceState,
        Step,
    ) {
        let (runner, progress) = RunnerState::fresh(script).start(now_ms);
        match progress {
            Progress::Ask { request } => (
                DistanceState { runner, phase, ..self },
                Step::Ask { request },
            ),
            Progress::Complete => (
                DistanceState { runner, phase: DistancePhase::Idle, ..self },
                Step::Finished { outcome: Outcome::Done },
            ),
            Progress::Failed { error } => (
                DistanceState { runner, phase: DistancePhase::Idle, ..self },
                Step::Failed { error },
            ),
        }
    }

    /// Ends the operation with a failure.
    pub open spec fn fail(self, runner: RunnerState, error: RadarError) -> (DistanceState, Step) {
        (DistanceState { runner, phase: DistancePhase::Idle, ..self }, Step::Failed { error })
    }

    /// What follows when the sequence in execution has completed.
    ///
    /// A result word that asks for calibration is not used: the detector is
    /// calibrated and the word read again, as often as it takes. Only a
    /// result word that needs no calibration leads to the peak registers
    /// and so to a measurement. The time at which such a calibration
    /// completed is recorded.
    pub open spec fn completed(self, runner: RunnerState, now_ms: u64) -> (DistanceState, Step) {
        let idle = DistanceState { runner, phase: DistancePhase::Idle, ..self };
        match self.phase {
            DistancePhase::Recalibrating => DistanceState {
                recalibrated_at: Some(now_ms),
                ..idle
            }.launch(DistancePhase::Rereading, reread_script(), now_ms),
            DistancePhase::Measuring | DistancePhase::Rereading => if runner.words.len() == 0 {
                self.fail(runner, RadarError::InvalidResponse)
            } else {
                let word = runner.words.last();
                if decode_result(word).calibration_needed {
                    idle.launch(
                        DistancePhase::Recalibrating,
                        recalibration_script(self.start_mm, self.end_mm),
                        now_ms,
                    )
                } else {
                    idle.launch(DistancePhase::ReadingPeaks { result: word }, peaks_script(), now_ms)
                }
            },
            DistancePhase::ReadingPeaks { result } => if runner.words.len() != 2 {
                self.fail(runner, RadarError::InvalidResponse)
            } else {
                (
                    idle,
                    Step::Finished {
                        outcome: Outcome::Distance {
                            distance: measurement(result, runner.words[0], runner.words[1]),
                        },
                    },
                )
            },
            _ => (idle, Step::Finished { outcome: Outcome::Done }),
        }
    }

    /// The state and the next step after the host's reply.
    pub open spec fn resume(self, now_ms: u64, reply: Reply) -> (DistanceState, Step) {
        let (runner, progress) = self.runner.resume(now_ms, reply);
        match progress {
            Progress::Ask { request } => (DistanceState { runner, ..self }, Step::Ask { request }),
            Progress::Failed { error } => self.fail(runner, error),
            Progress::Complete => self.completed(runner, now_ms),
        }
    }

    /// The range that `configure_range` sets, if the range is valid: its
    /// length is positive and its end fits a register.
    pub open spec fn range_fault(start_mm: u32, length_mm: u32) -> Option<ParameterFault> {
        if length_mm == 0 {
            Some(ParameterFault::RangeOrder { start_mm, end_mm: start_mm })
        } else if start_mm + length_mm > u32::MAX {
            Some(ParameterFault::RangeOrder { start_mm, end_mm: u32::MAX })
        } else {
            None
        }
    }
}

impl View for DistanceDetector {
    type V = DistanceState;

    closed spec fn view(&self) -> DistanceState {
        DistanceState {
            runner: self.runner@,
            phase: self.phase,
            start_mm: self.start_mm,
            end_mm: self.end_mm,
            recalibrated_at: self.recalibrated_at,
        }
    }
}

fn build_range(start_mm: u32, end_mm: u32) -> (script: Vec<Op>)
    ensures
        script@ == range_script(start_mm, end_mm),
{
    let mut script: Vec<Op> = Vec::new();
    script.push(Op::Write { address: registers::REG_START_CONFIG, value: start_mm });
    script.push(Op::Write { address: registers::REG_END_CONFIG, value: end_mm });
    assert(script@ =~= range_script(start_mm, end_mm));
    script
}

fn push_tuning_defaults(script: &mut Vec<Op>)
    ensures
        final(script)@ == old(script)@ + seq![
            write(registers::REG_MAX_STEP_LENGTH, registers::DISTANCE_MAX_STEP_LENGTH_DEFAULT),
            write(
                registers::REG_CLOSE_RANGE_LEAKAGE_CANCELLATION,
                registers::DISTANCE_CLOSE_RANGE_LEAKAGE_CANCELLATION_DEFAULT,
            ),
            write(registers::REG_SIGNAL_QUALITY, registers::DISTANCE_SIGNAL_QUALITY_DEFAULT),
        ],
{
    script.push(
        Op::Write {
            address: registers::REG_MAX_STEP_LENGTH,
            value: registers::DISTANCE_MAX_STEP_LENGTH_DEFAULT,
        },
    );
    script.push(
        Op::Write {
            address: registers::REG_CLOSE_RANGE_LEAKAGE_CANCELLATION,
            value: registers::DISTANCE_CLOSE_RANGE_LEAKAGE_CANCELLATION_DEFAULT,
        },
    );
    script.push(
        Op::Write {
            address: registers::REG_SIGNAL_QUALITY,
            value: registers::DISTANCE_SIGNAL_QUALITY_DEFAULT,
        },
    );
    assert(script@ =~= old(script)@ + seq![
        write(registers::REG_MAX_STEP_LENGTH, registers::DISTANCE_MAX_STEP_LENGTH_DEFAULT),
        write(
            registers::REG_CLOSE_RANGE_LEAKAGE_CANCELLATION,
            registers::DISTANCE_CLOSE_RANGE_LEAKAGE_CANCELLATION_DEFAULT,
        ),
        write(registers::REG_SIGNAL_QUALITY, registers::DISTANCE_SIGNAL_QUALITY_DEFAULT),
    ]);
}

fn push_threshold_defaults(script: &mut Vec<Op>)
    ensures
        final(script)@ == old(script)@ + seq![
            write(registers::REG_THRESHOLD_METHOD, registers::DISTANCE_THRESHOLD_METHOD_DEFAULT),
            write(registers::REG_PEAK_SORTING, registers::DISTANCE_PEAK_SORTING_DEFAULT),
            write(
                registers::REG_NUM_FRAMES_RECORDED_THRESHOLD,
                registers::DISTANCE_NUM_FRAMES_RECORDED_THRESHOLD_DEFAULT,
            ),
            write(
                registers::REG_FIXED_AMPLITUDE_THRESHOLD_VALUE,
                registers::DISTANCE_FIXED_AMPLITUDE_THRESHOLD_VALUE_DEFAULT,
            ),
        ],
{
    script.push(
        Op::Write {
            address: registers::REG_THRESHOLD_METHOD,
            value: registers::DISTANCE_THRESHOLD_METHOD_DEFAULT,
        },
    );
    script.push(
        Op::Write {
            address: registers::REG_PEAK_SORTING,
            value: registers::DISTANCE_PEAK_SORTING_DEFAULT,
        },
    );
    script.push(
        Op::Write {
            address: registers::REG_NUM_FRAMES_RECORDED_THRESHOLD,
            value: registers::DISTANCE_NUM_FRAMES_RECORDED_THRESHOLD_DEFAULT,
        },
    );
    script.push(
        Op::Write {
            address: registers::REG_FIXED_AMPLITUDE_THRESHOLD_VALUE,
            value: registers::DISTANCE_FIXED_AMPLITUDE_THRESHOLD_VALUE_DEFAULT,
        },
    );
    assert(script@ =~= old(script)@ + seq![
        write(registers::REG_THRESHOLD_METHOD, registers::DISTANCE_THRESHOLD_METHOD_DEFAULT),
        write(registers::REG_PEAK_SORTING, registers::DISTANCE_PEAK_SORTING_DEFAULT),
        write(
            registers::REG_NUM_FRAMES_RECORDED_THRESHOLD,
            registers::DISTANCE_NUM_FRAMES_RECORDED_THRESHOLD_DEFAULT,
        ),
        write(
            registers::REG_FIXED_AMPLITUDE_THRESHOLD_VALUE,
            registers::DISTANCE_FIXED_AMPLITUDE_THRESHOLD_VALUE_DEFAULT,
        ),
    ]);
}

fn push_shape_defaults(script: &mut Vec<Op>)
    ensures
        final(script)@ == old(script)@ + seq![
            write(registers::REG_REFLECTOR_SHAPE, registers::DISTANCE_REFLECTOR_SHAPE_DEFAULT),
            write(
                registers::REG_FIXED_STRENGTH_THRESHOLD_VALUE,
                registers::DISTANCE_FIXED_STRENGTH_THRESHOLD_VALUE_DEFAULT,
            ),
        ],
{
    script.push(
        Op::Write {
            address: registers::REG_REFLECTOR_SHAPE,
            value: registers::DISTANCE_REFLECTOR_SHAPE_DEFAULT,
        },
    );
    script.push(
        Op::Write {
            address: registers::REG_FIXED_STRENGTH_THRESHOLD_VALUE,
            value: registers::DISTANCE_FIXED_STRENGTH_THRESHOLD_VALUE_DEFAULT,
        },
    );
    assert(script@ =~= old(script)@ + seq![
        write(registers::REG_REFLECTOR_SHAPE, registers::DISTANCE_REFLECTOR_SHAPE_DEFAULT),
        write(
            registers::REG_FIXED_STRENGTH_THRESHOLD_VALUE,
            registers::DISTANCE_FIXED_STRENGTH_THRESHOLD_VALUE_DEFAULT,
        ),
    ]);
}

fn build_defaults() -> (script: Vec<Op>)
    ensures
        script@ == defaults_script(),
{
    let mut script: Vec<Op> = Vec::new();
    push_tuning_defaults(&mut script);
    script.push(
        Op::Write {
            address: registers::REG_MAX_PROFILE,
            value: registers::DISTANCE_MAX_PROFILE_DEFAULT,
        },
    );
    push_threshold_defaults(&mut script);
    script.push(
        Op::Write {
            address: registers::REG_THRESHOLD_SENSITIVITY,
            value: registers::DISTANCE_THRESHOLD_SENSITIVITY_DEFAULT,
        },
    );
    push_shape_defaults(&mut script);
    assert(script@ =~= defaults_script());
    script
}

fn build_configuration(config: &XM125Config) -> (script: Vec<Op>)
    ensures
        script@ == configuration_script(*config),
{
    let mut script: Vec<Op> = Vec::new();
    script.push(
        Op::Write { address: registers::REG_START_CONFIG, value: effective_start_mm(config) },
    );
    script.push(Op::Write { address: registers::REG_END_CONFIG, value: effective_end_mm(config) });
    script.push(
        Op::Write {
            address: registers::REG_THRESHOLD_SENSITIVITY,
            value: effective_sensitivity(config),
        },
    );
    script.push(
        Op::Write {
            address: registers::REG_MAX_PROFILE,
            value: registers::DISTANCE_MAX_PROFILE_DEFAULT,
        },
    );
    push_tuning_defaults(&mut script);
    push_threshold_defaults(&mut script);
    push_shape_defaults(&mut script);
    assert(script@ =~= configuration_script(*config));
    script
}

fn push_calibration(script: &mut Vec<Op>)
    ensures
        final(script)@ == old(script)@ + calibration_script(),
{
    script.push(
        Op::Command {
            app: Application::Distance,
            code: registers::CMD_APPLY_CONFIG_AND_CALIBRATE,
        },
    );
    script.push(
        Op::Await {
            condition: Condition::DistanceCalibrated,
            timeout_ms: registers::CALIBRATION_TIMEOUT_MS,
            interval_ms: registers::CALIBRATION_POLL_INTERVAL_MS,
        },
    );
    assert(script@ =~= old(script)@ + calibration_script());
}

fn build_measure() -> (script: Vec<Op>)
    ensures
        script@ == measure_script(),
{
    let mut script: Vec<Op> = Vec::new();
    script.push(
        Op::Command { app: Application::Distance, code: registers::CMD_MEASURE_DISTANCE },
    );
    script.push(
        Op::Await {
            condition: Condition::MeasurementReady,
            timeout_ms: registers::MEASUREMENT_TIMEOUT_MS,
            interval_ms: registers::POLL_INTERVAL_MS,
        },
    );
    script.push(Op::Read { address: registers::REG_DISTANCE_RESULT });
    assert(script@ =~= measure_script());
    script
}

fn build_recalibration(start_mm: u32, end_mm: u32) -> (script: Vec<Op>)
    ensures
        script@ == recalibration_script(start_mm, end_mm),
{
    let mut script = build_range(start_mm, end_mm);
    push_calibration(&mut script);
    script
}

fn build_reread() -> (script: Vec<Op>)
    ensures
        script@ == reread_script(),
{
    let mut script: Vec<Op> = Vec::new();
    script.push(Op::Read { address: registers::REG_DISTANCE_RESULT });
    assert(script@ =~= reread_script());
    script
}

fn build_peaks() -> (script: Vec<Op>)
    ensures
        script@ == peaks_script(),
{
    let mut script: Vec<Op> = Vec::new();
    script.push(Op::Read { address: registers::REG_PEAK0_DISTANCE });
    script.push(Op::Read { address: registers::REG_PEAK0_STRENGTH });
    assert(script@ =~= peaks_script());
    script
}

impl DistanceDetector {
    /// A detector that is doing nothing; it calibrates with the default
    /// range.
    pub fn new() -> (detector: DistanceDetector)
        ensures
            detector@ == DistanceState::fresh(),
    {
        DistanceDetector {
            runner: Runner::new(Vec::new()),
            phase: DistancePhase::Idle,
            start_mm: registers::DISTANCE_START_DEFAULT,
            end_mm: registers::DISTANCE_END_DEFAULT,
            recalibrated_at: None,
        }
    }

    fn launch(&mut self, phase: DistancePhase, script: Vec<Op>, now_ms: u64) -> (step: Step)
        ensures
            (final(self)@, step) == old(self)@.launch(phase, script@, now_ms),
    {
        let mut runner = Runner::new(script);
        let progress = runner.start(now_ms);
        self.runner = runner;
        match progress {
            Progress::Ask { request } => {
                self.phase = phase;
                Step::Ask { request }
            },
            Progress::Complete => {
                self.phase = DistancePhase::Idle;
                Step::Finished { outcome: Outcome::Done }
            },
            Progress::Failed { error } => {
                self.phase = DistancePhase::Idle;
                Step::Failed { error }
            },
        }
    }

    /// Whether a status word shows the busy bit.
    pub fn is_busy(status: u32) -> (busy: bool)
        ensures
            busy == registers::status_busy(status),
    {
        registers::status_busy(status)
    }

    /// Whether a status word shows any error bit of the distance detector.
    pub fn has_errors(status: u32) -> (errors: bool)
        ensures
            errors == Application::Distance.has_errors(status),
    {
        Application::Distance.has_errors(status)
    }

    /// Writes the detection range from `start_mm` over `length_mm`, and
    /// keeps it for later calibrations. A range without length, or one
    /// whose end does not fit a register, is rejected before anything is
    /// written.
    pub fn configure_range(&mut self, start_mm: u32, length_mm: u32, now_ms: u64) -> (step: Step)
        ensures
            match DistanceState::range_fault(start_mm, length_mm) {
                Some(reason) => step == (Step::Failed {
                    error: RadarError::InvalidParameters { reason },
                }) && final(self)@ == old(self)@,
                None => (final(self)@, step) == (DistanceState {
                    start_mm,
                    end_mm: (start_mm + length_mm) as u32,
                    ..old(self)@
                }).launch(
                    DistancePhase::Working,
                    range_script(start_mm, (start_mm + length_mm) as u32),
                    now_ms,
                ),
            },
    {
        if length_mm == 0 {
            return Step::Failed {
                error: RadarError::InvalidParameters {
                    reason: ParameterFault::RangeOrder { start_mm, end_mm: start_mm },
                },
            };
        }
        if length_mm > u32::MAX - start_mm {
            return Step::Failed {
                error: RadarError::InvalidParameters {
                    reason: ParameterFault::RangeOrder { start_mm, end_mm: u32::MAX },
                },
            };
        }
        let end_mm = start_mm + length_mm;
        self.start_mm = start_mm;
        self.end_mm = end_mm;
        self.launch(DistancePhase::Working, build_range(start_mm, end_mm), now_ms)
    }

    /// Writes every tuning register with its documented default.
    pub fn configure_detector(&mut self, now_ms: u64) -> (step: Step)
        ensures
            (final(self)@, step) == old(self)@.launch(
                DistancePhase::Working,
                defaults_script(),
                now_ms,
            ),
    {
        self.launch(DistancePhase::Working, build_defaults(), now_ms)
    }

    /// Writes the whole configuration: what `config` sets, and defaults
    /// for the rest. The range written is kept for later calibrations.
    pub fn configure(&mut self, config: &XM125Config, now_ms: u64) -> (step: Step)
        ensures
            (final(self)@, step) == (DistanceState {
                start_mm: effective_start_mm(config),
                end_mm: effective_end_mm(config),
                ..old(self)@
            }).launch(DistancePhase::Working, configuration_script(*config), now_ms),
    {
        self.start_mm = effective_start_mm(config);
        self.end_mm = effective_end_mm(config);
        self.launch(DistancePhase::Working, build_configuration(config), now_ms)
    }

    /// Applies the configuration and calibrates.
    pub fn apply_config_and_calibrate(&mut self, now_ms: u64) -> (step: Step)
        ensures
            (final(self)@, step) == old(self)@.launch(
                DistancePhase::Working,
                calibration_script(),
                now_ms,
            ),
    {
        let mut script: Vec<Op> = Vec::new();
        push_calibration(&mut script);
        assert(script@ =~= calibration_script());
        self.launch(DistancePhase::Working, script, now_ms)
    }

    /// Writes the range kept from the last configuration, applies it and
    /// calibrates.
    pub fn calibrate(&mut self, now_ms: u64) -> (step: Step)
        ensures
            (final(self)@, step) == old(self)@.launch(
                DistancePhase::Working,
                range_script(old(self)@.start_mm, old(self)@.end_mm) + calibration_script(),
                now_ms,
            ),
    {
        let mut script = build_range(self.start_mm, self.end_mm);
        push_calibration(&mut script);
        self.launch(DistancePhase::Working, script, now_ms)
    }

    /// Writes the range that `config` gives the detector, applies it and
    /// calibrates. The range is kept for later calibrations.
    pub fn calibrate_for(&mut self, config: &XM125Config, now_ms: u64) -> (step: Step)
        ensures
            (final(self)@, step) == (DistanceState {
                start_mm: effective_start_mm(config),
                end_mm: effective_end_mm(config),
                ..old(self)@
            }).launch(
                DistancePhase::Working,
                range_script(effective_start_mm(config), effective_end_mm(config))
                    + calibration_script(),
                now_ms,
            ),
    {
        self.start_mm = effective_start_mm(config);
        self.end_mm = effective_end_mm(config);
        self.calibrate(now_ms)
    }

    /// Resets the module and waits until the application is back.
    pub fn reset_module(&mut self, now_ms: u64) -> (step: Step)
        ensures
            (final(self)@, step) == old(self)@.launch(DistancePhase::Working, reset_script(), now_ms),
    {
        let mut script: Vec<Op> = Vec::new();
        script.push(
            Op::Write { address: registers::REG_COMMAND, value: registers::CMD_RESET_MODULE },
        );
        script.push(Op::Sleep { ms: registers::DISTANCE_RESET_SETTLE_MS });
        assert(script@ =~= reset_script());
        self.launch(DistancePhase::Working, script, now_ms)
    }

    /// Issues one command under the busy/error discipline.
    pub fn write_command_safe(&mut self, command: u32, now_ms: u64) -> (step: Step)
        ensures
            (final(self)@, step) == old(self)@.launch(
                DistancePhase::Working,
                seq![Op::Command { app: Application::Distance, code: command }],
                now_ms,
            ),
    {
        let mut script: Vec<Op> = Vec::new();
        script.push(Op::Command { app: Application::Distance, code: command });
        assert(script@ =~= seq![Op::Command { app: Application::Distance, code: command }]);
        self.launch(DistancePhase::Working, script, now_ms)
    }

    /// Waits until the busy bit is clear, for `timeout_ms` at most.
    pub fn wait_for_not_busy(&mut self, timeout_ms: u64, now_ms: u64) -> (step: Step)
        ensures
            (final(self)@, step) == old(self)@.launch(
                DistancePhase::Working,
                seq![
                    Op::Await {
                        condition: Condition::NotBusy,
                        timeout_ms,
                        interval_ms: registers::POLL_INTERVAL_MS,
                    },
                ],
                now_ms,
            ),
    {
        let mut script: Vec<Op> = Vec::new();
        script.push(
            Op::Await {
                condition: Condition::NotBusy,
                timeout_ms,
                interval_ms: registers::POLL_INTERVAL_MS,
            },
        );
        assert(script@ =~= seq![
            Op::Await {
                condition: Condition::NotBusy,
                timeout_ms,
                interval_ms: registers::POLL_INTERVAL_MS,
            },
        ]);
        self.launch(DistancePhase::Working, script, now_ms)
    }

    /// Begins a measurement.
    pub fn measure(&mut self, now_ms: u64) -> (step: Step)
        ensures
            (final(self)@, step) == old(self)@.begin_measure(now_ms),
    {
        self.recalibrated_at = None;
        self.launch(DistancePhase::Measuring, build_measure(), now_ms)
    }

    /// When the measurement begun last completed a calibration of its own,
    /// if it did.
    pub fn recalibrated_at(&self) -> (at: Option<u64>)
        ensures
            at == self@.recalibrated_at,
    {
        self.recalibrated_at
    }

    /// Takes the host's reply to the outstanding request and returns what
    /// the operation in progress wants next, or how it ended.
    pub fn resume(&mut self, now_ms: u64, reply: Reply) -> (step: Step)
        ensures
            (final(self)@, step) == old(self)@.resume(now_ms, reply),
    {
        let progress = self.runner.resume(now_ms, reply);
        match progress {
            Progress::Ask { request } => Step::Ask { request },
            Progress::Failed { error } => {
                self.phase = DistancePhase::Idle;
                Step::Failed { error }
            },
            Progress::Complete => {
                let phase = self.phase;
                self.phase = DistancePhase::Idle;
                match phase {
                    DistancePhase::Recalibrating => {
                        self.recalibrated_at = Some(now_ms);
                        self.launch(DistancePhase::Rereading, build_reread(), now_ms)
                    },
                    DistancePhase::Measuring | DistancePhase::Rereading => {
                        let count = self.runner.words().len();
                        if count == 0 {
                            Step::Failed { error: RadarError::InvalidResponse }
                        } else {
                            let word = self.runner.words()[count - 1];
                            if decode_result(word).calibration_needed {
                                let script = build_recalibration(self.start_mm, self.end_mm);
                                self.launch(DistancePhase::Recalibrating, script, now_ms)
                            } else {
                                self.launch(
                                    DistancePhase::ReadingPeaks { result: word },
                                    build_peaks(),
                                    now_ms,
                                )
                            }
                        }
                    },
                    DistancePhase::ReadingPeaks { result } => {
                        if self.runner.words().len() != 2 {
                            Step::Failed { error: RadarError::InvalidResponse }
                        } else {
                            let peak_distance = self.runner.words()[0];
                            let peak_strength = self.runner.words()[1];
                            Step::Finished {
                                outcome: Outcome::Distance {
                                    distance: measurement(result, peak_distance, peak_strength),
                                },
                            }
                        }
                    },
                    _ => Step::Finished { outcome: Outcome::Done },
                }
            },
        }
    }

    /// What the detector is doing.
    pub fn phase(&self) -> (phase: DistancePhase)
        ensures
            phase == self@.phase,
    {
        self.phase
    }
}

impl DistanceState {
    /// Whether the sequence in execution is the one that the phase calls
    /// for, the result word kept for the peaks asks for no calibration,
    /// and the calibration before a second read of the result word is on
    /// record.
    pub open spec fn well_formed(self) -> bool {
        match self.phase {
            DistancePhase::Measuring => self.runner.ops == measure_script(),
            DistancePhase::Recalibrating => self.runner.ops == recalibration_script(
                self.start_mm,
                self.end_mm,
            ),
            DistancePhase::Rereading => self.runner.ops == reread_script()
                && self.recalibrated_at is Some,
            DistancePhase::ReadingPeaks { result } => self.runner.ops == peaks_script()
                && !decode_result(result).calibration_needed,
            _ => true,
        }
    }

    /// Whether a measurement is in progress.
    pub open spec fn measuring(self) -> bool {
        self.phase != DistancePhase::Idle && self.phase != DistancePhase::Working
    }
}

/// The sequences of a measurement issue their commands under the
/// busy/error discipline only.
pub proof fn lemma_measurement_is_disciplined(start_mm: u32, end_mm: u32)
    ensures
        crate::ops::disciplined(measure_script()),
        crate::ops::disciplined(recalibration_script(start_mm, end_mm)),
        crate::ops::disciplined(reread_script()),
        crate::ops::disciplined(peaks_script()),
        crate::ops::disciplined(calibration_script()),
{
}

/// A measurement begins well-formed, with a read of the status register
/// and with no calibration on record.
pub proof fn lemma_measure_begins_well_formed(state: DistanceState, now_ms: u64)
    ensures
        state.begin_measure(now_ms).0.well_formed(),
        state.begin_measure(now_ms).0.phase == DistancePhase::Measuring,
        state.begin_measure(now_ms).0.recalibrated_at is None,
        state.begin_measure(now_ms).1 == (Step::Ask { request: crate::ops::status_read() }),
{
}

/// A calibration that the detector runs within a measurement is recorded
/// when it completes, and only then. The record changes with the reply
/// that ends the calibration sequence: that reply is a status word of a
/// calibrated detector, neither busy nor in error, and the record is the
/// time of that reply. No other reply changes it.
pub proof fn lemma_recalibration_is_recorded(state: DistanceState, now_ms: u64, reply: Reply)
    requires
        state.well_formed(),
    ensures
        state.resume(now_ms, reply).0.recalibrated_at != state.recalibrated_at ==> state.phase
            == DistancePhase::Recalibrating && state.resume(now_ms, reply).0.recalibrated_at
            == Some(now_ms),
        state.phase == DistancePhase::Recalibrating && state.resume(now_ms, reply).0.phase
            == DistancePhase::Rereading ==> state.resume(now_ms, reply).0.recalibrated_at == Some(
            now_ms,
        ) && (reply matches Reply::Word { value: status } && Condition::DistanceCalibrated.judge(
            status,
        ) == crate::status::Verdict::Satisfied),
{
}

/// A well-formed detector stays well-formed.
pub proof fn lemma_resume_keeps_well_formed(state: DistanceState, now_ms: u64, reply: Reply)
    requires
        state.well_formed(),
    ensures
        state.resume(now_ms, reply).0.well_formed(),
{
}

/// The detector never issues a command while the device is busy. During a
/// measurement, whatever the detector writes to the command register, the
/// measure command included, it writes in answer to a status word whose
/// busy bit is clear.
pub proof fn lemma_measure_waits_for_idle(
    state: DistanceState,
    now_ms: u64,
    reply: Reply,
    value: u32,
)
    requires
        state.well_formed(),
        state.measuring(),
        state.resume(now_ms, reply).1 == (Step::Ask {
            request: crate::host::Request::WriteRegister {
                address: registers::REG_COMMAND,
                value,
            },
        }),
    ensures
        reply matches Reply::Word { value: status } && !registers::status_busy(status),
{
    lemma_measurement_is_disciplined(state.start_mm, state.end_mm);
    let (runner, progress) = state.runner.resume(now_ms, reply);
    if progress is Ask {
        crate::runner::lemma_commands_wait_for_idle(state.runner, now_ms, reply, value);
    }
}

/// The detector returns no partial data. A measurement ends well only
/// with the read of the last peak register, and only for a result word
/// that asks for no calibration; a busy device, a pending measurement or
/// a result word that asks for calibration never ends it.
pub proof fn lemma_measure_returns_whole_measurements(
    state: DistanceState,
    now_ms: u64,
    reply: Reply,
)
    requires
        state.well_formed(),
        state.measuring(),
        state.resume(now_ms, reply).1 is Finished,
    ensures
        state.phase matches DistancePhase::ReadingPeaks { result } && !decode_result(
            result,
        ).calibration_needed && reply is Word && state.runner.pc == 1 && state.resume(
            now_ms,
            reply,
        ).1 == (Step::Finished {
            outcome: Outcome::Distance {
                distance: measurement(result, state.runner.words[0], reply->value),
            },
        }),
{
}

/// Reading back. After the writes of `configure_range` the start register
/// holds the start of the range and the end register its end, in
/// millimetres, whatever the registers held before.
pub proof fn lemma_range_reads_back(start_mm: u32, length_mm: u32, before: Map<u16, u32>)
    requires
        DistanceState::range_fault(start_mm, length_mm) is None,
    ensures
        crate::ops::written(
            range_script(start_mm, (start_mm + length_mm) as u32),
            before,
        )[registers::REG_START_CONFIG] == start_mm,
        crate::ops::written(
            range_script(start_mm, (start_mm + length_mm) as u32),
            before,
        )[registers::REG_END_CONFIG] == start_mm + length_mm,
{
    let end_mm = (start_mm + length_mm) as u32;
    let script = range_script(start_mm, end_mm);
    let first = seq![write(registers::REG_START_CONFIG, start_mm)];
    assert(script.drop_last() =~= first);
    assert(first.drop_last() =~= Seq::<Op>::empty());
    reveal_with_fuel(crate::ops::written, 3);
}

/// The writes of a configuration and of a range leave the command register
/// alone.
pub proof fn lemma_configuration_is_disciplined(config: XM125Config)
    ensures
        crate::ops::disciplined(configuration_script(config)),
        crate::ops::disciplined(
            range_script(effective_start_mm(&config), effective_end_mm(&config))
                + calibration_script(),
        ),
{
}

/// Whatever a detector with a disciplined sequence writes to the command
/// register, it writes in answer to a status word whose busy bit is clear.
pub proof fn lemma_detector_commands_wait_for_idle(
    state: DistanceState,
    now_ms: u64,
    reply: Reply,
    value: u32,
)
    requires
        state.well_formed(),
        crate::ops::disciplined(state.runner.ops),
        state.resume(now_ms, reply).1 == (Step::Ask {
            request: crate::host::Request::WriteRegister {
                address: registers::REG_COMMAND,
                value,
            },
        }),
    ensures
        reply matches Reply::Word { value: status } && !registers::status_busy(status),
{
    lemma_measurement_is_disciplined(state.start_mm, state.end_mm);
    let (runner, progress) = state.runner.resume(now_ms, reply);
    if progress is Ask {
        crate::runner::lemma_commands_wait_for_idle(state.runner, now_ms, reply, value);
    }
}

/// Reading back in metres. For a range typed as `start:end` in metres,
/// the writes of `configure_range` leave the start of the range in the start
/// register and its end in the end register, each in millimetres, rounded
/// to the nearest.
pub proof fn lemma_typed_range_reads_back(text: Seq<u8>, before: Map<u16, u32>)
    requires
        crate::config::spec_parse_range(text) is Ok,
    ensures
        ({
            let range = crate::config::spec_parse_range(text)->Ok_0;
            let colon = crate::decimal::first_index(text, 58);
            let start = text.take(colon);
            let end = text.skip(colon + 1);
            let length_mm = (range.1 - range.0) as u32;
            let script = range_script(range.0, (range.0 + length_mm) as u32);
            &&& DistanceState::range_fault(range.0, length_mm) is None
            &&& crate::ops::written(script, before)[registers::REG_START_CONFIG]
                == crate::decimal::thousandths(
                crate::decimal::whole_part(start),
                crate::decimal::fraction_part(start),
            )
            &&& crate::ops::written(script, before)[registers::REG_END_CONFIG]
                == crate::decimal::thousandths(
                crate::decimal::whole_part(end),
                crate::decimal::fraction_part(end),
            )
        }),
{
    let range = crate::config::spec_parse_range(text)->Ok_0;
    lemma_range_reads_back(range.0, (range.1 - range.0) as u32, before);
}

} // verus!
