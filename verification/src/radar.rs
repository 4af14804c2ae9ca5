//! The radar session.
//!
//! A session tracks whether the module is connected and calibrated, turns
//! each call into the sequences of the detector in use, and recovers a
//! module that does not answer with a hardware reset.

use vstd::prelude::*;
use vstd::string::StringSliceAdditionalSpecFns;
use crate::breathing::BreathingDetector;
use crate::breathing::BreathingState;
use crate::config::DetectorMode;
use crate::config::XM125Config;
use crate::distance::DistanceDetector;
use crate::distance::DistanceMeasurement;
use crate::distance::DistanceState;
use crate::error::ParameterFault;
use crate::error::RadarError;
use crate::gpio::GpioValue;
use crate::gpio::XM125GpioPins;
use crate::host::elapsed_ms;
use crate::host::Reply;
use crate::ops::Op;
use crate::outcome::CombinedMeasurement;
use crate::outcome::Outcome;
use crate::outcome::Step;
use crate::presence::PresenceDetector;
use crate::presence::PresenceState;
use crate::registers;
use crate::runner::Progress;
use crate::runner::Runner;
use crate::runner::RunnerState;
use crate::status::Application;

verus! {

/// What the caller asked the session for.
#[derive(Clone, Copy, Debug, PartialEq, Eq, Structural)]
pub enum Goal {
    Connect,
    ConnectAsync,
    AutoConnect,
    Configure,
    Calibrate,
    MeasureDistance,
    MeasurePresence,
    MeasureBreathing,
    MeasureCombined,
    Disconnect,
    GetStatus,
    GetInfo,
    ReadApplicationId,
    StartContinuous,
    StopContinuous,
    PresenceControl,
}

impl Goal {
    /// Whether the goal connects the plain way: one probe, one hardware
    /// reset, one more probe.
    #[verifier::allow_in_spec]
    pub fn connects_plainly(self) -> bool
        returns
            self == Goal::Connect || self == Goal::GetStatus || self == Goal::GetInfo,
    {
        self == Goal::Connect || self == Goal::GetStatus || self == Goal::GetInfo
    }

    /// Whether the goal connects with retries.
    #[verifier::allow_in_spec]
    pub fn connects_with_retries(self) -> bool
        returns
            self == Goal::AutoConnect || self == Goal::MeasureDistance || self
                == Goal::MeasurePresence || self == Goal::MeasureBreathing || self
                == Goal::MeasureCombined || self == Goal::StartContinuous,
    {
        self == Goal::AutoConnect || self == Goal::MeasureDistance || self == Goal::MeasurePresence
            || self == Goal::MeasureBreathing || self == Goal::MeasureCombined || self
            == Goal::StartContinuous
    }
}

/// What the session is doing towards its goal.
#[derive(Clone, Copy, Debug, PartialEq, Eq, Structural)]
pub enum Activity {
    Idle,
    /// Reading the status register to see whether the module answers.
    Probe,
    /// Resetting the module into run mode through its pins.
    HardwareReset,
    /// Waiting before the next probe.
    Pause,
    ConfigureDistance,
    CalibrateDistance,
    ConfigurePresence,
    ApplyPresence,
    ConfigureBreathing,
    ApplyBreathing,
    /// Calibrating the distance detector before a measurement.
    Recalibrate,
    MeasureDistance,
    MeasurePresence,
    MeasureBreathing,
    /// Starting or stopping the presence detector.
    PresenceControl,
    /// The last sequence of the goal.
    Finish,
}

/// Which part of the session carries out an activity.
#[derive(Clone, Copy, Debug, PartialEq, Eq, Structural)]
pub enum Driver {
    Nobody,
    Session,
    Distance,
    Presence,
    Breathing,
}

impl Activity {
    /// The part of the session that carries out the activity.
    #[verifier::allow_in_spec]
    pub fn driver(self) -> Driver
        returns
            match self {
                Activity::Idle => Driver::Nobody,
                Activity::Probe | Activity::HardwareReset | Activity::Pause | Activity::Finish =>
                    Driver::Session,
                Activity::ConfigureDistance | Activity::CalibrateDistance | Activity::Recalibrate
                | Activity::MeasureDistance => Driver::Distance,
                Activity::ConfigurePresence | Activity::ApplyPresence | Activity::MeasurePresence
                | Activity::PresenceControl => Driver::Presence,
                Activity::ConfigureBreathing | Activity::ApplyBreathing
                | Activity::MeasureBreathing => Driver::Breathing,
            },
    {
        match self {
            Activity::Idle => Driver::Nobody,
            Activity::Probe | Activity::HardwareReset | Activity::Pause | Activity::Finish =>
                Driver::Session,
            Activity::ConfigureDistance | Activity::CalibrateDistance | Activity::Recalibrate
            | Activity::MeasureDistance => Driver::Distance,
            Activity::ConfigurePresence | Activity::ApplyPresence | Activity::MeasurePresence
            | Activity::PresenceControl => Driver::Presence,
            Activity::ConfigureBreathing | Activity::ApplyBreathing | Activity::MeasureBreathing =>
                Driver::Breathing,
        }
    }
}

/// Whether a distance measurement has to calibrate first: it has when the
/// detector was never calibrated, and when the last calibration is older
/// than five minutes.
pub open spec fn spec_calibration_due(
    is_calibrated: bool,
    last_calibration: Option<u64>,
    now_ms: u64,
) -> bool {
    !is_calibrated || match last_calibration {
        None => true,
        Some(at) => elapsed_ms(at, now_ms) > registers::CALIBRATION_MAX_AGE_MS,
    }
}

#[verifier::when_used_as_spec(spec_calibration_due)]
pub fn calibration_due(is_calibrated: bool, last_calibration: Option<u64>, now_ms: u64) -> (due: bool)
    ensures
        due == spec_calibration_due(is_calibrated, last_calibration, now_ms),
{
    !is_calibrated || match last_calibration {
        None => true,
        Some(at) => elapsed_ms(at, now_ms) > registers::CALIBRATION_MAX_AGE_MS,
    }
}

/// Whether an error means that the connection is lost: a bus transaction
/// that failed, or a module that did not answer.
#[verifier::allow_in_spec]
pub fn drops_connection(error: RadarError) -> bool
    returns
        error == RadarError::Bus || error == RadarError::NotConnected,
{
    error == RadarError::Bus || error == RadarError::NotConnected
}

/// The application that a mode talks to; the combined mode issues its own
/// commands to the distance detector.
#[verifier::allow_in_spec]
pub fn application(mode: DetectorMode) -> Application
    returns
        (match mode {
            DetectorMode::Presence => Application::Presence,
            DetectorMode::Breathing => Application::Breathing,
            _ => Application::Distance,
        }),
{
    match mode {
        DetectorMode::Presence => Application::Presence,
        DetectorMode::Breathing => Application::Breathing,
        _ => Application::Distance,
    }
}

/// One read of the status register.
pub open spec fn probe_script() -> Seq<Op> {
    seq![Op::Read { address: registers::REG_DETECTOR_STATUS }]
}

/// The pins are initialized and the module is reset into run mode.
pub open spec fn hardware_reset_script(pins: XM125GpioPins) -> Seq<Op> {
    crate::gpio::initialize_script(pins, true) + crate::gpio::reset_script(pins, GpioValue::Low)
}

/// One pause.
pub open spec fn pause_script(ms: u64) -> Seq<Op> {
    seq![Op::Sleep { ms }]
}

/// The detector is disabled as far as that is possible.
pub open spec fn disconnect_script() -> Seq<Op> {
    seq![
        Op::WriteBestEffort {
            address: registers::REG_COMMAND,
            value: registers::CMD_DISABLE_DETECTOR,
        },
    ]
}

/// The reads of version and application id.
pub open spec fn info_script() -> Seq<Op> {
    seq![
        Op::Read { address: registers::REG_VERSION },
        Op::Read { address: registers::REG_APPLICATION_ID },
    ]
}

/// The read of the application id.
pub open spec fn application_id_script() -> Seq<Op> {
    seq![Op::Read { address: registers::REG_APPLICATION_ID }]
}

/// One command under the busy/error discipline.
pub open spec fn command_script(app: Application, code: u32) -> Seq<Op> {
    seq![Op::Command { app, code }]
}

/// The state of an `XM125Radar`.
pub struct RadarState {
    pub config: XM125Config,
    pub gpio_pins: XM125GpioPins,
    pub is_connected: bool,
    pub is_calibrated: bool,
    /// When the distance detector was last calibrated.
    pub last_calibration: Option<u64>,
    pub continuous_mode: bool,
    pub last_measurement: Option<u64>,
    pub goal: Goal,
    pub activity: Activity,
    /// The connection attempt in progress, counted from 1.
    pub attempt: u32,
    /// The distance half of a combined measurement.
    pub combined_distance: Option<DistanceMeasurement>,
    pub runner: RunnerState,
    pub distance: DistanceState,
    pub presence: PresenceState,
    pub breathing: BreathingState,
}

impl RadarState {
    /// A session that is not connected, with the default configuration.
    pub open spec fn fresh(gpio_pins: XM125GpioPins) -> RadarState {
        RadarState {
            config: XM125Config::spec_default(),
            gpio_pins,
            is_connected: false,
            is_calibrated: false,
            last_calibration: None,
            continuous_mode: false,
            last_measurement: None,
            goal: Goal::Connect,
            activity: Activity::Idle,
            attempt: 0,
            combined_distance: None,
            runner: RunnerState::fresh(Seq::empty()),
            distance: DistanceState::fresh(),
            presence: PresenceState::fresh(),
            breathing: BreathingState::fresh(),
        }
    }

    /// Ends the goal well.
    pub open spec fn finish(self, outcome: Outcome) -> (RadarState, Step) {
        (RadarState { activity: Activity::Idle, ..self }, Step::Finished { outcome })
    }

    /// Ends the goal with a failure. A bus that failed, or a module that
    /// did not answer, leaves the session disconnected.
    pub open spec fn finish_err(self, error: RadarError) -> (RadarState, Step) {
        (
            RadarState {
                activity: Activity::Idle,
                is_connected: self.is_connected && !drops_connection(error),
                ..self
            },
            Step::Failed { error },
        )
    }

    /// The first step of an activity has to be a request.
    pub open spec fn expect_ask(self, step: Step) -> (RadarState, Step) {
        match step {
            Step::Ask { .. } => (self, step),
            _ => self.finish_err(RadarError::InvalidResponse),
        }
    }

    /// Begins `script` as the session's own activity.
    pub open spec fn start_own(self, activity: Activity, script: Seq<Op>, now_ms: u64) -> (
        RadarState,
        Step,
    ) {
        let (runner, progress) = RunnerState::fresh(script).start(now_ms);
        RadarState { runner, activity, ..self }.expect_ask(crate::outcome::plain_step(progress))
    }

    /// Begins a probe.
    pub open spec fn start_probe(self, now_ms: u64) -> (RadarState, Step) {
        self.start_own(Activity::Probe, probe_script(), now_ms)
    }

    /// Begins the hardware reset into run mode.
    pub open spec fn start_hardware_reset(self, now_ms: u64) -> (RadarState, Step) {
        self.start_own(Activity::HardwareReset, hardware_reset_script(self.gpio_pins), now_ms)
    }

    /// Begins a pause.
    pub open spec fn start_pause(self, ms: u64, now_ms: u64) -> (RadarState, Step) {
        self.start_own(Activity::Pause, pause_script(ms), now_ms)
    }

    /// Begins the writes of the distance configuration.
    pub open spec fn start_configure_distance(self, now_ms: u64) -> (RadarState, Step) {
        let (distance, step) = (DistanceState {
            start_mm: crate::distance::effective_start_mm(&self.config),
            end_mm: crate::distance::effective_end_mm(&self.config),
            ..self.distance
        }).launch(
            crate::distance::DistancePhase::Working,
            crate::distance::configuration_script(self.config),
            now_ms,
        );
        RadarState { distance, activity: Activity::ConfigureDistance, ..self }.expect_ask(step)
    }

    /// Begins apply-config-and-calibrate.
    pub open spec fn start_calibrate_distance(self, now_ms: u64) -> (RadarState, Step) {
        let (distance, step) = self.distance.launch(
            crate::distance::DistancePhase::Working,
            crate::distance::calibration_script(),
            now_ms,
        );
        RadarState { distance, activity: Activity::CalibrateDistance, ..self }.expect_ask(step)
    }

    /// The calibration before a measurement: the configured range is
    /// written, applied and calibrated.
    pub open spec fn start_recalibrate(self, now_ms: u64) -> (RadarState, Step) {
        let start_mm = crate::distance::effective_start_mm(&self.config);
        let end_mm = crate::distance::effective_end_mm(&self.config);
        let (distance, step) = (DistanceState { start_mm, end_mm, ..self.distance }).launch(
            crate::distance::DistancePhase::Working,
            crate::distance::range_script(start_mm, end_mm) + crate::distance::calibration_script(),
            now_ms,
        );
        RadarState { distance, activity: Activity::Recalibrate, ..self }.expect_ask(step)
    }

    /// Begins a distance measurement.
    pub open spec fn start_measure_distance(self, now_ms: u64) -> (RadarState, Step) {
        let (distance, step) = self.distance.begin_measure(now_ms);
        RadarState { distance, activity: Activity::MeasureDistance, ..self }.expect_ask(step)
    }

    /// The session with the calibration on its books that the detector ran
    /// within the measurement that has ended, if it ran one: the detector
    /// counts as calibrated at the time at which that calibration completed.
    pub open spec fn recalibration_noted(self) -> RadarState {
        match self.distance.recalibrated_at {
            Some(at) => RadarState { is_calibrated: true, last_calibration: Some(at), ..self },
            None => self,
        }
    }

    /// The writes of the presence configuration, with the profile and step
    /// length selected for the configured range.
    pub open spec fn presence_thresholds(self) -> Seq<Op> {
        let end_mm = self.config.presence_end_mm();
        crate::presence::thresholds_script(
            self.config.intra_detection_threshold,
            self.config.inter_detection_threshold,
            self.config.frame_rate,
            crate::presence::spec_optimal_profile(end_mm),
            crate::presence::spec_optimal_step_length(end_mm),
            self.config.auto_profile_enabled,
            self.config.presence_start_mm(),
            end_mm,
        )
    }

    /// Begins the writes of the presence configuration.
    pub open spec fn start_configure_presence(self, now_ms: u64) -> (RadarState, Step) {
        let (presence, step) = PresenceState::launch(
            crate::presence::PresencePhase::Working,
            self.presence_thresholds(),
            now_ms,
        );
        RadarState { presence, activity: Activity::ConfigurePresence, ..self }.expect_ask(step)
    }

    /// Begins the apply sequence of the presence detector.
    pub open spec fn start_apply_presence(self, now_ms: u64) -> (RadarState, Step) {
        let (presence, step) = PresenceState::launch(
            crate::presence::PresencePhase::Working,
            crate::presence::apply_script(
                self.config.presence_start_mm(),
                self.config.presence_end_mm(),
            ),
            now_ms,
        );
        RadarState { presence, activity: Activity::ApplyPresence, ..self }.expect_ask(step)
    }

    /// Begins a presence measurement.
    pub open spec fn start_measure_presence(self, now_ms: u64) -> (RadarState, Step) {
        let (presence, step) = PresenceState::launch(
            crate::presence::PresencePhase::Measuring,
            crate::presence::measure_script(),
            now_ms,
        );
        RadarState { presence, activity: Activity::MeasurePresence, ..self }.expect_ask(step)
    }

    /// Begins a start or stop of the presence detector.
    pub open spec fn start_presence_control(self, script: Seq<Op>, now_ms: u64) -> (
        RadarState,
        Step,
    ) {
        let (presence, step) = PresenceState::launch(
            crate::presence::PresencePhase::Working,
            script,
            now_ms,
        );
        RadarState {
            presence,
            goal: Goal::PresenceControl,
            activity: Activity::PresenceControl,
            ..self
        }.expect_ask(step)
    }

    /// Begins the writes of the breathing configuration.
    pub open spec fn start_configure_breathing(self, now_ms: u64) -> (RadarState, Step) {
        let (breathing, step) = BreathingState::launch(
            crate::breathing::BreathingPhase::Working,
            crate::breathing::configuration_script(self.config),
            now_ms,
        );
        RadarState { breathing, activity: Activity::ConfigureBreathing, ..self }.expect_ask(step)
    }

    /// Begins apply-configuration of the breathing application.
    pub open spec fn start_apply_breathing(self, now_ms: u64) -> (RadarState, Step) {
        let (breathing, step) = BreathingState::launch(
            crate::breathing::BreathingPhase::Working,
            crate::breathing::apply_script(),
            now_ms,
        );
        RadarState { breathing, activity: Activity::ApplyBreathing, ..self }.expect_ask(step)
    }

    /// Begins a breathing measurement.
    pub open spec fn start_measure_breathing(self, now_ms: u64) -> (RadarState, Step) {
        let (breathing, step) = BreathingState::launch(
            crate::breathing::BreathingPhase::Measuring,
            crate::breathing::measure_script(),
            now_ms,
        );
        RadarState { breathing, activity: Activity::MeasureBreathing, ..self }.expect_ask(step)
    }

    /// Configures the detector of the mode in use. The combined mode
    /// begins with the distance detector.
    pub open spec fn begin_configure(self, now_ms: u64) -> (RadarState, Step) {
        match self.config.detector_mode {
            DetectorMode::Distance | DetectorMode::Combined => self.start_configure_distance(
                now_ms,
            ),
            DetectorMode::Presence => self.start_configure_presence(now_ms),
            DetectorMode::Breathing => self.start_configure_breathing(now_ms),
        }
    }

    /// Begins the distance part of a measurement: with a calibration when
    /// one is due, with the measurement itself when none is.
    pub open spec fn begin_distance(self, now_ms: u64) -> (RadarState, Step) {
        if calibration_due(self.is_calibrated, self.last_calibration, now_ms) {
            self.start_recalibrate(now_ms)
        } else {
            self.start_measure_distance(now_ms)
        }
    }

    /// What a goal that needs a connection does once the question of the
    /// connection is settled.
    pub open spec fn connected_continue(self, now_ms: u64) -> (RadarState, Step) {
        if !self.is_connected {
            self.finish_err(RadarError::NotConnected)
        } else {
            match self.goal {
                Goal::MeasureDistance => self.begin_distance(now_ms),
                Goal::MeasurePresence => if self.config.detector_mode == DetectorMode::Presence
                    || self.config.detector_mode == DetectorMode::Combined {
                    self.start_measure_presence(now_ms)
                } else {
                    self.finish_err(
                        RadarError::InvalidParameters { reason: ParameterFault::NotPresenceMode },
                    )
                },
                Goal::MeasureBreathing => self.start_measure_breathing(now_ms),
                Goal::MeasureCombined => if self.config.detector_mode == DetectorMode::Combined {
                    RadarState { combined_distance: None, ..self }.begin_distance(now_ms)
                } else {
                    self.finish_err(
                        RadarError::InvalidParameters { reason: ParameterFault::NotCombinedMode },
                    )
                },
                Goal::StartContinuous => self.start_own(
                    Activity::Finish,
                    command_script(
                        application(self.config.detector_mode),
                        registers::CMD_ENABLE_CONTINUOUS_MODE,
                    ),
                    now_ms,
                ),
                _ => self.finish(Outcome::Done),
            }
        }
    }

    /// What follows once the detector is configured.
    pub open spec fn configured(self, now_ms: u64) -> (RadarState, Step) {
        match self.goal {
            Goal::MeasureDistance | Goal::MeasurePresence | Goal::MeasureBreathing
            | Goal::MeasureCombined | Goal::StartContinuous => self.connected_continue(now_ms),
            _ => self.finish(Outcome::Done),
        }
    }

    /// A connection attempt has failed. The third failure ends the goal
    /// with the error of that attempt. The first is followed by a
    /// hardware reset, the second by the retry delay.
    pub open spec fn attempt_failed(self, error: RadarError, now_ms: u64) -> (RadarState, Step) {
        if self.attempt >= registers::CONNECT_MAX_ATTEMPTS {
            self.finish_err(error)
        } else if self.attempt <= 1 {
            self.start_hardware_reset(now_ms)
        } else {
            self.start_pause(registers::CONNECT_RETRY_DELAY_MS, now_ms)
        }
    }

    /// The goal's way on after a failure while configuring.
    pub open spec fn configure_failed(self, error: RadarError, now_ms: u64) -> (RadarState, Step) {
        if self.goal.connects_with_retries() {
            self.attempt_failed(error, now_ms)
        } else {
            self.finish_err(error)
        }
    }

    /// The presence half of a combined measurement.
    pub open spec fn begin_combined_presence(self, now_ms: u64) -> (RadarState, Step) {
        self.start_measure_presence(now_ms)
    }

    /// The result of the goal's last sequence.
    pub open spec fn finished(self) -> (RadarState, Step) {
        match self.goal {
            Goal::Disconnect => RadarState { is_connected: false, ..self }.finish(Outcome::Done),
            Goal::GetStatus => if self.runner.words.len() == 1 {
                self.finish(Outcome::Status { word: self.runner.words[0] })
            } else {
                self.finish_err(RadarError::InvalidResponse)
            },
            Goal::GetInfo => if self.runner.words.len() == 2 {
                self.finish(
                    Outcome::Info {
                        version: self.runner.words[0],
                        application_id: self.runner.words[1],
                    },
                )
            } else {
                self.finish_err(RadarError::InvalidResponse)
            },
            Goal::ReadApplicationId => if self.runner.words.len() == 1 {
                self.finish(Outcome::ApplicationId { id: self.runner.words[0] })
            } else {
                self.finish_err(RadarError::InvalidResponse)
            },
            Goal::StartContinuous => RadarState { continuous_mode: true, ..self }.finish(
                Outcome::Done,
            ),
            Goal::StopContinuous => RadarState { continuous_mode: false, ..self }.finish(
                Outcome::Done,
            ),
            _ => self.finish(Outcome::Done),
        }
    }

    /// The activity in progress has ended well.
    pub open spec fn succeeded(self, outcome: Outcome, now_ms: u64) -> (RadarState, Step) {
        match self.activity {
            Activity::Idle => self.finish_err(RadarError::InvalidResponse),
            Activity::Probe => {
                let connected = RadarState { is_connected: true, ..self };
                match self.goal {
                    Goal::GetStatus => connected.start_own(Activity::Finish, probe_script(), now_ms),
                    Goal::GetInfo => connected.start_own(Activity::Finish, info_script(), now_ms),
                    Goal::ConnectAsync | Goal::AutoConnect | Goal::MeasureDistance
                    | Goal::MeasurePresence | Goal::MeasureBreathing | Goal::MeasureCombined
                    | Goal::StartContinuous => connected.begin_configure(now_ms),
                    _ => connected.finish(Outcome::Done),
                }
            },
            Activity::HardwareReset => self.start_pause(registers::BOOT_WAIT_MS, now_ms),
            Activity::Pause => RadarState {
                attempt: if self.attempt < u32::MAX {
                    (self.attempt + 1) as u32
                } else {
                    self.attempt
                },
                ..self
            }.start_probe(now_ms),
            Activity::ConfigureDistance => self.start_calibrate_distance(now_ms),
            Activity::CalibrateDistance => {
                let calibrated = RadarState {
                    is_calibrated: true,
                    last_calibration: Some(now_ms),
                    ..self
                };
                if self.config.detector_mode == DetectorMode::Combined {
                    calibrated.start_configure_presence(now_ms)
                } else {
                    calibrated.configured(now_ms)
                }
            },
            Activity::ConfigurePresence => self.start_apply_presence(now_ms),
            Activity::ApplyPresence => self.configured(now_ms),
            Activity::ConfigureBreathing => self.start_apply_breathing(now_ms),
            Activity::ApplyBreathing => self.configured(now_ms),
            Activity::Recalibrate => {
                let calibrated = RadarState {
                    is_calibrated: true,
                    last_calibration: Some(now_ms),
                    ..self
                };
                if self.goal == Goal::Calibrate {
                    calibrated.finish(Outcome::Done)
                } else {
                    calibrated.start_measure_distance(now_ms)
                }
            },
            Activity::MeasureDistance => match outcome {
                Outcome::Distance { distance } => {
                    let measured = RadarState {
                        last_measurement: Some(now_ms),
                        ..self.recalibration_noted()
                    };
                    if self.goal == Goal::MeasureCombined {
                        RadarState {
                            combined_distance: Some(distance),
                            ..measured
                        }.begin_combined_presence(now_ms)
                    } else {
                        measured.finish(outcome)
                    }
                },
                _ => self.failed(RadarError::InvalidResponse, now_ms),
            },
            Activity::MeasurePresence => match outcome {
                Outcome::Presence { presence } => {
                    let measured = RadarState { last_measurement: Some(now_ms), ..self };
                    if self.goal == Goal::MeasureCombined {
                        measured.finish(
                            Outcome::Combined {
                                combined: CombinedMeasurement {
                                    distance: self.combined_distance,
                                    presence: Some(presence),
                                },
                            },
                        )
                    } else {
                        measured.finish(outcome)
                    }
                },
                _ => self.failed(RadarError::InvalidResponse, now_ms),
            },
            Activity::MeasureBreathing => match outcome {
                Outcome::Breathing { .. } => RadarState {
                    last_measurement: Some(now_ms),
                    ..self
                }.finish(outcome),
                _ => self.finish_err(RadarError::InvalidResponse),
            },
            Activity::PresenceControl => self.finish(Outcome::Done),
            Activity::Finish => self.finished(),
        }
    }

    /// The activity in progress has failed.
    ///
    /// A failed probe is not reported at once. The plain connection runs
    /// one hardware reset and probes once more; the connection with
    /// retries counts an attempt. A combined measurement goes on without
    /// the half that failed. A distance measurement that fails after the
    /// detector has calibrated itself leaves that calibration on the
    /// books. A disconnection does not fail.
    pub open spec fn failed(self, error: RadarError, now_ms: u64) -> (RadarState, Step) {
        match self.activity {
            Activity::Probe => if self.goal.connects_plainly() {
                if self.attempt <= 1 {
                    self.start_hardware_reset(now_ms)
                } else {
                    self.finish_err(RadarError::NotConnected)
                }
            } else if self.goal.connects_with_retries() {
                self.attempt_failed(RadarError::NotConnected, now_ms)
            } else {
                self.finish_err(RadarError::NotConnected)
            },
            Activity::HardwareReset => if self.goal.connects_with_retries() {
                self.start_pause(registers::CONNECT_RETRY_DELAY_MS, now_ms)
            } else {
                self.finish_err(RadarError::NotConnected)
            },
            Activity::ConfigureDistance | Activity::CalibrateDistance | Activity::ConfigurePresence
            | Activity::ApplyPresence | Activity::ConfigureBreathing | Activity::ApplyBreathing =>
                self.configure_failed(error, now_ms),
            Activity::Recalibrate => if self.goal == Goal::MeasureCombined {
                RadarState { combined_distance: None, ..self }.begin_combined_presence(now_ms)
            } else {
                self.finish_err(error)
            },
            Activity::MeasureDistance => if self.goal == Goal::MeasureCombined {
                RadarState {
                    combined_distance: None,
                    ..self.recalibration_noted()
                }.begin_combined_presence(now_ms)
            } else {
                self.recalibration_noted().finish_err(error)
            },
            Activity::MeasurePresence => if self.goal == Goal::MeasureCombined {
                self.finish(
                    Outcome::Combined {
                        combined: CombinedMeasurement {
                            distance: self.combined_distance,
                            presence: None,
                        },
                    },
                )
            } else {
                self.finish_err(error)
            },
            Activity::Finish => if self.goal == Goal::Disconnect {
                RadarState { is_connected: false, ..self }.finish(Outcome::Done)
            } else {
                self.finish_err(error)
            },
            _ => self.finish_err(error),
        }
    }

    /// The state and the next step after the host's reply.
    pub open spec fn resume(self, now_ms: u64, reply: Reply) -> (RadarState, Step) {
        match self.activity.driver() {
            Driver::Nobody => self.finish_err(RadarError::InvalidResponse),
            Driver::Session => {
                let (runner, progress) = self.runner.resume(now_ms, reply);
                let next = RadarState { runner, ..self };
                match progress {
                    Progress::Ask { request } => (next, Step::Ask { request }),
                    Progress::Complete => next.succeeded(Outcome::Done, now_ms),
                    Progress::Failed { error } => next.failed(error, now_ms),
                }
            },
            Driver::Distance => {
                let (distance, step) = self.distance.resume(now_ms, reply);
                let next = RadarState { distance, ..self };
                match step {
                    Step::Ask { .. } => (next, step),
                    Step::Finished { outcome } => next.succeeded(outcome, now_ms),
                    Step::Failed { error } => next.failed(error, now_ms),
                }
            },
            Driver::Presence => {
                let (presence, step) = self.presence.resume(now_ms, reply);
                let next = RadarState { presence, ..self };
                match step {
                    Step::Ask { .. } => (next, step),
                    Step::Finished { outcome } => next.succeeded(outcome, now_ms),
                    Step::Failed { error } => next.failed(error, now_ms),
                }
            },
            Driver::Breathing => {
                let (breathing, step) = self.breathing.resume(now_ms, reply);
                let next = RadarState { breathing, ..self };
                match step {
                    Step::Ask { .. } => (next, step),
                    Step::Finished { outcome } => next.succeeded(outcome, now_ms),
                    Step::Failed { error } => next.failed(error, now_ms),
                }
            },
        }
    }

    /// Begins a goal that needs a connection: with a first connection
    /// attempt where the session is not connected and reconnects by
    /// itself, else with the goal itself.
    pub open spec fn begin_connected(self, goal: Goal, now_ms: u64) -> (RadarState, Step) {
        let begun = RadarState { goal, ..self };
        if !self.is_connected && self.config.auto_reconnect {
            RadarState { attempt: 1, ..begun }.start_probe(now_ms)
        } else {
            begun.connected_continue(now_ms)
        }
    }

    /// Begins a goal that starts with a probe.
    pub open spec fn begin_probe(self, goal: Goal, now_ms: u64) -> (RadarState, Step) {
        RadarState { goal, attempt: 1, ..self }.start_probe(now_ms)
    }
}

impl RadarState {
    /// The state with another goal.
    pub open spec fn with_goal(self, goal: Goal) -> RadarState {
        RadarState { goal, ..self }
    }

    /// The state with another detector selected.
    pub open spec fn with_mode(self, mode: DetectorMode) -> RadarState {
        RadarState { config: XM125Config { detector_mode: mode, ..self.config }, ..self }
    }

    /// One probe; if the module does not answer, one hardware reset, a
    /// second for the module to boot, and one more probe. Only when that
    /// fails too is the connection reported as failed.
    pub open spec fn connect(self, now_ms: u64) -> (RadarState, Step) {
        self.begin_probe(Goal::Connect, now_ms)
    }

    /// One probe and, if the module answers, the configuration of the
    /// detector in use.
    pub open spec fn connect_async(self, now_ms: u64) -> (RadarState, Step) {
        self.begin_probe(Goal::ConnectAsync, now_ms)
    }

    /// Up to three attempts to connect and configure.
    pub open spec fn auto_connect(self, now_ms: u64) -> (RadarState, Step) {
        self.begin_probe(Goal::AutoConnect, now_ms)
    }

    /// A session that is connected disables the detector as far as that is
    /// possible and is disconnected afterwards, whatever came of it.
    pub open spec fn disconnect(self, now_ms: u64) -> (RadarState, Step) {
        if self.is_connected {
            self.with_goal(Goal::Disconnect).start_own(
                Activity::Finish,
                disconnect_script(),
                now_ms,
            )
        } else {
            (self, Step::Finished { outcome: Outcome::Done })
        }
    }

    /// The status register is read; a session that is not connected
    /// connects first.
    pub open spec fn get_status(self, now_ms: u64) -> (RadarState, Step) {
        if self.is_connected {
            self.with_goal(Goal::GetStatus).start_own(Activity::Finish, probe_script(), now_ms)
        } else {
            self.begin_probe(Goal::GetStatus, now_ms)
        }
    }

    /// Version and application id are read; a session that is not
    /// connected connects first.
    pub open spec fn get_info(self, now_ms: u64) -> (RadarState, Step) {
        if self.is_connected {
            self.with_goal(Goal::GetInfo).start_own(Activity::Finish, info_script(), now_ms)
        } else {
            self.begin_probe(Goal::GetInfo, now_ms)
        }
    }

    /// The application id register is read.
    pub open spec fn read_application_id(self, now_ms: u64) -> (RadarState, Step) {
        self.with_goal(Goal::ReadApplicationId).start_own(
            Activity::Finish,
            application_id_script(),
            now_ms,
        )
    }

    /// The distance detector is calibrated with the configured range.
    pub open spec fn calibrate(self, now_ms: u64) -> (RadarState, Step) {
        self.with_goal(Goal::Calibrate).start_recalibrate(now_ms)
    }

    /// Continuous monitoring is switched off if it is on.
    pub open spec fn stop_continuous_monitoring(self, now_ms: u64) -> (RadarState, Step) {
        if self.continuous_mode {
            self.with_goal(Goal::StopContinuous).start_own(
                Activity::Finish,
                command_script(
                    application(self.config.detector_mode),
                    registers::CMD_DISABLE_CONTINUOUS_MODE,
                ),
                now_ms,
            )
        } else {
            (self, Step::Finished { outcome: Outcome::Done })
        }
    }

    /// The mode is set. A connected session whose mode changes configures
    /// and calibrates the detector of the new mode.
    pub open spec fn set_detector_mode(self, mode: DetectorMode, now_ms: u64) -> (RadarState, Step) {
        if self.is_connected && self.config.detector_mode != mode {
            self.with_mode(mode).with_goal(Goal::Configure).begin_configure(now_ms)
        } else {
            (self.with_mode(mode), Step::Finished { outcome: Outcome::Done })
        }
    }

    /// The presence detector is selected, its registers are written and
    /// the apply sequence runs.
    pub open spec fn configure_presence_detector(self, now_ms: u64) -> (RadarState, Step) {
        self.with_mode(DetectorMode::Presence).with_goal(Goal::Configure).start_configure_presence(
            now_ms,
        )
    }

    /// The distance detector is selected, configured and calibrated.
    pub open spec fn configure_distance_detector(self, now_ms: u64) -> (RadarState, Step) {
        self.with_mode(DetectorMode::Distance).with_goal(Goal::Configure).start_configure_distance(
            now_ms,
        )
    }
}

/// A session with one XM125 module.
pub struct XM125Radar {
    pub config: XM125Config,
    gpio_pins: XM125GpioPins,
    is_connected: bool,
    is_calibrated: bool,
    last_calibration: Option<u64>,
    continuous_mode: bool,
    last_measurement: Option<u64>,
    goal: Goal,
    activity: Activity,
    attempt: u32,
    combined_distance: Option<DistanceMeasurement>,
    runner: Runner,
    distance: DistanceDetector,
    presence: PresenceDetector,
    breathing: BreathingDetector,
}

impl View for XM125Radar {
    type V = RadarState;

    closed spec fn view(&self) -> RadarState {
        RadarState {
            config: self.config,
            gpio_pins: self.gpio_pins,
            is_connected: self.is_connected,
            is_calibrated: self.is_calibrated,
            last_calibration: self.last_calibration,
            continuous_mode: self.continuous_mode,
            last_measurement: self.last_measurement,
            goal: self.goal,
            activity: self.activity,
            attempt: self.attempt,
            combined_distance: self.combined_distance,
            runner: self.runner@,
            distance: self.distance@,
            presence: self.presence@,
            breathing: self.breathing@,
        }
    }
}

fn build_single(op: Op) -> (script: Vec<Op>)
    ensures
        script@ == seq![op],
{
    let mut script: Vec<Op> = Vec::new();
    script.push(op);
    assert(script@ =~= seq![op]);
    script
}

fn build_hardware_reset(pins: XM125GpioPins) -> (script: Vec<Op>)
    ensures
        script@ == hardware_reset_script(pins),
{
    let mut script = crate::gpio::build_initialize(pins, true);
    crate::gpio::push_reset(&mut script, pins, GpioValue::Low);
    script
}

fn build_info() -> (script: Vec<Op>)
    ensures
        script@ == info_script(),
{
    let mut script: Vec<Op> = Vec::new();
    script.push(Op::Read { address: registers::REG_VERSION });
    script.push(Op::Read { address: registers::REG_APPLICATION_ID });
    assert(script@ =~= info_script());
    script
}

impl XM125Radar {
    /// A session that is not connected, with the default configuration.
    pub fn new(gpio_pins: XM125GpioPins) -> (radar: XM125Radar)
        ensures
            radar@ == RadarState::fresh(gpio_pins),
    {
        XM125Radar {
            config: XM125Config::default(),
            gpio_pins,
            is_connected: false,
            is_calibrated: false,
            last_calibration: None,
            continuous_mode: false,
            last_measurement: None,
            goal: Goal::Connect,
            activity: Activity::Idle,
            attempt: 0,
            combined_distance: None,
            runner: Runner::new(Vec::new()),
            distance: DistanceDetector::new(),
            presence: PresenceDetector::new(),
            breathing: BreathingDetector::new(),
        }
    }

    fn finish(&mut self, outcome: Outcome) -> (step: Step)
        ensures
            (final(self)@, step) == old(self)@.finish(outcome),
    {
        self.activity = Activity::Idle;
        Step::Finished { outcome }
    }

    fn finish_err(&mut self, error: RadarError) -> (step: Step)
        ensures
            (final(self)@, step) == old(self)@.finish_err(error),
    {
        self.activity = Activity::Idle;
        if drops_connection(error) {
            self.is_connected = false;
        }
        Step::Failed { error }
    }

    fn expect_ask(&mut self, step: Step) -> (out: Step)
        ensures
            (final(self)@, out) == old(self)@.expect_ask(step),
    {
        match step {
            Step::Ask { .. } => step,
            _ => self.finish_err(RadarError::InvalidResponse),
        }
    }

    fn start_own(&mut self, activity: Activity, script: Vec<Op>, now_ms: u64) -> (step: Step)
        ensures
            (final(self)@, step) == old(self)@.start_own(activity, script@, now_ms),
    {
        let mut runner = Runner::new(script);
        let progress = runner.start(now_ms);
        self.runner = runner;
        self.activity = activity;
        self.expect_ask(crate::outcome::plain_step(progress))
    }

    fn start_probe(&mut self, now_ms: u64) -> (step: Step)
        ensures
            (final(self)@, step) == old(self)@.start_probe(now_ms),
    {
        let script = build_single(Op::Read { address: registers::REG_DETECTOR_STATUS });
        self.start_own(Activity::Probe, script, now_ms)
    }

    fn start_hardware_reset(&mut self, now_ms: u64) -> (step: Step)
        ensures
            (final(self)@, step) == old(self)@.start_hardware_reset(now_ms),
    {
        let script = build_hardware_reset(self.gpio_pins);
        self.start_own(Activity::HardwareReset, script, now_ms)
    }

    fn start_pause(&mut self, ms: u64, now_ms: u64) -> (step: Step)
        ensures
            (final(self)@, step) == old(self)@.start_pause(ms, now_ms),
    {
        let script = build_single(Op::Sleep { ms });
        self.start_own(Activity::Pause, script, now_ms)
    }

    fn start_configure_distance(&mut self, now_ms: u64) -> (step: Step)
        ensures
            (final(self)@, step) == old(self)@.start_configure_distance(now_ms),
    {
        let config = self.config;
        let step = self.distance.configure(&config, now_ms);
        self.activity = Activity::ConfigureDistance;
        self.expect_ask(step)
    }

    fn start_calibrate_distance(&mut self, now_ms: u64) -> (step: Step)
        ensures
            (final(self)@, step) == old(self)@.start_calibrate_distance(now_ms),
    {
        let step = self.distance.apply_config_and_calibrate(now_ms);
        self.activity = Activity::CalibrateDistance;
        self.expect_ask(step)
    }

    fn start_recalibrate(&mut self, now_ms: u64) -> (step: Step)
        ensures
            (final(self)@, step) == old(self)@.start_recalibrate(now_ms),
    {
        let config = self.config;
        let step = self.distance.calibrate_for(&config, now_ms);
        self.activity = Activity::Recalibrate;
        self.expect_ask(step)
    }

    fn start_measure_distance(&mut self, now_ms: u64) -> (step: Step)
        ensures
            (final(self)@, step) == old(self)@.start_measure_distance(now_ms),
    {
        let step = self.distance.measure(now_ms);
        self.activity = Activity::MeasureDistance;
        self.expect_ask(step)
    }

    fn start_configure_presence(&mut self, now_ms: u64) -> (step: Step)
        ensures
            (final(self)@, step) == old(self)@.start_configure_presence(now_ms),
    {
        let start_mm = self.config.presence_start_mm();
        let end_mm = self.config.presence_end_mm();
        let profile = PresenceDetector::calculate_optimal_profile(start_mm, end_mm);
        let step_length = PresenceDetector::calculate_optimal_step_length(end_mm);
        let step = self.presence.configure_thresholds(
            self.config.intra_detection_threshold,
            self.config.inter_detection_threshold,
            self.config.frame_rate,
            profile,
            step_length,
            self.config.auto_profile_enabled,
            start_mm,
            end_mm,
            now_ms,
        );
        self.activity = Activity::ConfigurePresence;
        self.expect_ask(step)
    }

    fn start_apply_presence(&mut self, now_ms: u64) -> (step: Step)
        ensures
            (final(self)@, step) == old(self)@.start_apply_presence(now_ms),
    {
        let start_mm = self.config.presence_start_mm();
        let end_mm = self.config.presence_end_mm();
        let step = self.presence.apply_complete_configuration(start_mm, end_mm, now_ms);
        self.activity = Activity::ApplyPresence;
        self.expect_ask(step)
    }

    fn start_measure_presence(&mut self, now_ms: u64) -> (step: Step)
        ensures
            (final(self)@, step) == old(self)@.start_measure_presence(now_ms),
    {
        let step = self.presence.measure(now_ms);
        self.activity = Activity::MeasurePresence;
        self.expect_ask(step)
    }

    fn start_configure_breathing(&mut self, now_ms: u64) -> (step: Step)
        ensures
            (final(self)@, step) == old(self)@.start_configure_breathing(now_ms),
    {
        let config = self.config;
        let step = self.breathing.configure(&config, now_ms);
        self.activity = Activity::ConfigureBreathing;
        self.expect_ask(step)
    }

    fn start_apply_breathing(&mut self, now_ms: u64) -> (step: Step)
        ensures
            (final(self)@, step) == old(self)@.start_apply_breathing(now_ms),
    {
        let step = self.breathing.apply_configuration(now_ms);
        self.activity = Activity::ApplyBreathing;
        self.expect_ask(step)
    }

    fn start_measure_breathing(&mut self, now_ms: u64) -> (step: Step)
        ensures
            (final(self)@, step) == old(self)@.start_measure_breathing(now_ms),
    {
        let step = self.breathing.measure(now_ms);
        self.activity = Activity::MeasureBreathing;
        self.expect_ask(step)
    }

    fn begin_configure(&mut self, now_ms: u64) -> (step: Step)
        ensures
            (final(self)@, step) == old(self)@.begin_configure(now_ms),
    {
        match self.config.detector_mode {
            DetectorMode::Distance | DetectorMode::Combined => self.start_configure_distance(
                now_ms,
            ),
            DetectorMode::Presence => self.start_configure_presence(now_ms),
            DetectorMode::Breathing => self.start_configure_breathing(now_ms),
        }
    }

    fn begin_distance(&mut self, now_ms: u64) -> (step: Step)
        ensures
            (final(self)@, step) == old(self)@.begin_distance(now_ms),
    {
        if calibration_due(self.is_calibrated, self.last_calibration, now_ms) {
            self.start_recalibrate(now_ms)
        } else {
            self.start_measure_distance(now_ms)
        }
    }

    fn connected_continue(&mut self, now_ms: u64) -> (step: Step)
        ensures
            (final(self)@, step) == old(self)@.connected_continue(now_ms),
    {
        if !self.is_connected {
            return self.finish_err(RadarError::NotConnected);
        }
        match self.goal {
            Goal::MeasureDistance => self.begin_distance(now_ms),
            Goal::MeasurePresence => {
                if self.config.detector_mode == DetectorMode::Presence || self.config.detector_mode
                    == DetectorMode::Combined {
                    self.start_measure_presence(now_ms)
                } else {
                    self.finish_err(
                        RadarError::InvalidParameters { reason: ParameterFault::NotPresenceMode },
                    )
                }
            },
            Goal::MeasureBreathing => self.start_measure_breathing(now_ms),
            Goal::MeasureCombined => {
                if self.config.detector_mode == DetectorMode::Combined {
                    self.combined_distance = None;
                    self.begin_distance(now_ms)
                } else {
                    self.finish_err(
                        RadarError::InvalidParameters { reason: ParameterFault::NotCombinedMode },
                    )
                }
            },
            Goal::StartContinuous => {
                let script = build_single(
                    Op::Command {
                        app: application(self.config.detector_mode),
                        code: registers::CMD_ENABLE_CONTINUOUS_MODE,
                    },
                );
                self.start_own(Activity::Finish, script, now_ms)
            },
            _ => self.finish(Outcome::Done),
        }
    }

    fn configured(&mut self, now_ms: u64) -> (step: Step)
        ensures
            (final(self)@, step) == old(self)@.configured(now_ms),
    {
        match self.goal {
            Goal::MeasureDistance | Goal::MeasurePresence | Goal::MeasureBreathing
            | Goal::MeasureCombined | Goal::StartContinuous => self.connected_continue(now_ms),
            _ => self.finish(Outcome::Done),
        }
    }

    fn attempt_failed(&mut self, error: RadarError, now_ms: u64) -> (step: Step)
        ensures
            (final(self)@, step) == old(self)@.attempt_failed(error, now_ms),
    {
        if self.attempt >= registers::CONNECT_MAX_ATTEMPTS {
            self.finish_err(error)
        } else if self.attempt <= 1 {
            self.start_hardware_reset(now_ms)
        } else {
            self.start_pause(registers::CONNECT_RETRY_DELAY_MS, now_ms)
        }
    }

    fn configure_failed(&mut self, error: RadarError, now_ms: u64) -> (step: Step)
        ensures
            (final(self)@, step) == old(self)@.configure_failed(error, now_ms),
    {
        if self.goal.connects_with_retries() {
            self.attempt_failed(error, now_ms)
        } else {
            self.finish_err(error)
        }
    }

    fn finished(&mut self) -> (step: Step)
        ensures
            (final(self)@, step) == old(self)@.finished(),
    {
        match self.goal {
            Goal::Disconnect => {
                self.is_connected = false;
                self.finish(Outcome::Done)
            },
            Goal::GetStatus => {
                if self.runner.words().len() == 1 {
                    let word = self.runner.words()[0];
                    self.finish(Outcome::Status { word })
                } else {
                    self.finish_err(RadarError::InvalidResponse)
                }
            },
            Goal::GetInfo => {
                if self.runner.words().len() == 2 {
                    let version = self.runner.words()[0];
                    let application_id = self.runner.words()[1];
                    self.finish(Outcome::Info { version, application_id })
                } else {
                    self.finish_err(RadarError::InvalidResponse)
                }
            },
            Goal::ReadApplicationId => {
                if self.runner.words().len() == 1 {
                    let id = self.runner.words()[0];
                    self.finish(Outcome::ApplicationId { id })
                } else {
                    self.finish_err(RadarError::InvalidResponse)
                }
            },
            Goal::StartContinuous => {
                self.continuous_mode = true;
                self.finish(Outcome::Done)
            },
            Goal::StopContinuous => {
                self.continuous_mode = false;
                self.finish(Outcome::Done)
            },
            _ => self.finish(Outcome::Done),
        }
    }

    fn mark_calibrated(&mut self, now_ms: u64)
        ensures
            final(self)@ == (RadarState {
                is_calibrated: true,
                last_calibration: Some(now_ms),
                ..old(self)@
            }),
    {
        self.is_calibrated = true;
        self.last_calibration = Some(now_ms);
    }

    fn note_recalibration(&mut self)
        ensures
            final(self)@ == old(self)@.recalibration_noted(),
    {
        match self.distance.recalibrated_at() {
            Some(at) => {
                self.is_calibrated = true;
                self.last_calibration = Some(at);
            },
            None => {},
        }
    }

    fn succeeded(&mut self, outcome: Outcome, now_ms: u64) -> (step: Step)
        ensures
            (final(self)@, step) == old(self)@.succeeded(outcome, now_ms),
    {
        match self.activity {
            Activity::Idle => self.finish_err(RadarError::InvalidResponse),
            Activity::Probe => {
                self.is_connected = true;
                match self.goal {
                    Goal::GetStatus => {
                        let script = build_single(
                            Op::Read { address: registers::REG_DETECTOR_STATUS },
                        );
                        self.start_own(Activity::Finish, script, now_ms)
                    },
                    Goal::GetInfo => self.start_own(Activity::Finish, build_info(), now_ms),
                    Goal::ConnectAsync | Goal::AutoConnect | Goal::MeasureDistance
                    | Goal::MeasurePresence | Goal::MeasureBreathing | Goal::MeasureCombined
                    | Goal::StartContinuous => self.begin_configure(now_ms),
                    _ => self.finish(Outcome::Done),
                }
            },
            Activity::HardwareReset => self.start_pause(registers::BOOT_WAIT_MS, now_ms),
            Activity::Pause => {
                if self.attempt < u32::MAX {
                    self.attempt = self.attempt + 1;
                }
                self.start_probe(now_ms)
            },
            Activity::ConfigureDistance => self.start_calibrate_distance(now_ms),
            Activity::CalibrateDistance => {
                self.mark_calibrated(now_ms);
                if self.config.detector_mode == DetectorMode::Combined {
                    self.start_configure_presence(now_ms)
                } else {
                    self.configured(now_ms)
                }
            },
            Activity::ConfigurePresence => self.start_apply_presence(now_ms),
            Activity::ApplyPresence => self.configured(now_ms),
            Activity::ConfigureBreathing => self.start_apply_breathing(now_ms),
            Activity::ApplyBreathing => self.configured(now_ms),
            Activity::Recalibrate => {
                self.mark_calibrated(now_ms);
                if self.goal == Goal::Calibrate {
                    self.finish(Outcome::Done)
                } else {
                    self.start_measure_distance(now_ms)
                }
            },
            Activity::MeasureDistance => match outcome {
                Outcome::Distance { distance } => {
                    self.note_recalibration();
                    self.last_measurement = Some(now_ms);
                    if self.goal == Goal::MeasureCombined {
                        self.combined_distance = Some(distance);
                        self.start_measure_presence(now_ms)
                    } else {
                        self.finish(outcome)
                    }
                },
                _ => self.failed(RadarError::InvalidResponse, now_ms),
            },
            Activity::MeasurePresence => match outcome {
                Outcome::Presence { presence } => {
                    self.last_measurement = Some(now_ms);
                    if self.goal == Goal::MeasureCombined {
                        let combined = CombinedMeasurement {
                            distance: self.combined_distance,
                            presence: Some(presence),
                        };
                        self.finish(Outcome::Combined { combined })
                    } else {
                        self.finish(outcome)
                    }
                },
                _ => self.failed(RadarError::InvalidResponse, now_ms),
            },
            Activity::MeasureBreathing => match outcome {
                Outcome::Breathing { .. } => {
                    self.last_measurement = Some(now_ms);
                    self.finish(outcome)
                },
                _ => self.finish_err(RadarError::InvalidResponse),
            },
            Activity::PresenceControl => self.finish(Outcome::Done),
            Activity::Finish => self.finished(),
        }
    }

    fn failed(&mut self, error: RadarError, now_ms: u64) -> (step: Step)
        ensures
            (final(self)@, step) == old(self)@.failed(error, now_ms),
    {
        match self.activity {
            Activity::Probe => {
                if self.goal.connects_plainly() {
                    if self.attempt <= 1 {
                        self.start_hardware_reset(now_ms)
                    } else {
                        self.finish_err(RadarError::NotConnected)
                    }
                } else if self.goal.connects_with_retries() {
                    self.attempt_failed(RadarError::NotConnected, now_ms)
                } else {
                    self.finish_err(RadarError::NotConnected)
                }
            },
            Activity::HardwareReset => {
                if self.goal.connects_with_retries() {
                    self.start_pause(registers::CONNECT_RETRY_DELAY_MS, now_ms)
                } else {
                    self.finish_err(RadarError::NotConnected)
                }
            },
            Activity::ConfigureDistance | Activity::CalibrateDistance | Activity::ConfigurePresence
            | Activity::ApplyPresence | Activity::ConfigureBreathing | Activity::ApplyBreathing =>
                self.configure_failed(error, now_ms),
            Activity::Recalibrate => {
                if self.goal == Goal::MeasureCombined {
                    self.combined_distance = None;
                    self.start_measure_presence(now_ms)
                } else {
                    self.finish_err(error)
                }
            },
            Activity::MeasureDistance => {
                self.note_recalibration();
                if self.goal == Goal::MeasureCombined {
                    self.combined_distance = None;
                    self.start_measure_presence(now_ms)
                } else {
                    self.finish_err(error)
                }
            },
            Activity::MeasurePresence => {
                if self.goal == Goal::MeasureCombined {
                    let combined = CombinedMeasurement {
                        distance: self.combined_distance,
                        presence: None,
                    };
                    self.finish(Outcome::Combined { combined })
                } else {
                    self.finish_err(error)
                }
            },
            Activity::Finish => {
                if self.goal == Goal::Disconnect {
                    self.is_connected = false;
                    self.finish(Outcome::Done)
                } else {
                    self.finish_err(error)
                }
            },
            _ => self.finish_err(error),
        }
    }

    /// Takes the host's reply to the outstanding request, together with
    /// the current time, and returns the next request or the end of the
    /// goal.
    pub fn resume(&mut self, now_ms: u64, reply: Reply) -> (step: Step)
        ensures
            (final(self)@, step) == old(self)@.resume(now_ms, reply),
    {
        match self.activity.driver() {
            Driver::Nobody => self.finish_err(RadarError::InvalidResponse),
            Driver::Session => {
                let progress = self.runner.resume(now_ms, reply);
                match progress {
                    Progress::Ask { request } => Step::Ask { request },
                    Progress::Complete => self.succeeded(Outcome::Done, now_ms),
                    Progress::Failed { error } => self.failed(error, now_ms),
                }
            },
            Driver::Distance => {
                let step = self.distance.resume(now_ms, reply);
                match step {
                    Step::Ask { .. } => step,
                    Step::Finished { outcome } => self.succeeded(outcome, now_ms),
                    Step::Failed { error } => self.failed(error, now_ms),
                }
            },
            Driver::Presence => {
                let step = self.presence.resume(now_ms, reply);
                match step {
                    Step::Ask { .. } => step,
                    Step::Finished { outcome } => self.succeeded(outcome, now_ms),
                    Step::Failed { error } => self.failed(error, now_ms),
                }
            },
            Driver::Breathing => {
                let step = self.breathing.resume(now_ms, reply);
                match step {
                    Step::Ask { .. } => step,
                    Step::Finished { outcome } => self.succeeded(outcome, now_ms),
                    Step::Failed { error } => self.failed(error, now_ms),
                }
            },
        }
    }

    fn begin_connected(&mut self, goal: Goal, now_ms: u64) -> (step: Step)
        ensures
            (final(self)@, step) == old(self)@.begin_connected(goal, now_ms),
    {
        self.goal = goal;
        if !self.is_connected && self.config.auto_reconnect {
            self.attempt = 1;
            self.start_probe(now_ms)
        } else {
            self.connected_continue(now_ms)
        }
    }

    fn begin_probe(&mut self, goal: Goal, now_ms: u64) -> (step: Step)
        ensures
            (final(self)@, step) == old(self)@.begin_probe(goal, now_ms),
    {
        self.goal = goal;
        self.attempt = 1;
        self.start_probe(now_ms)
    }
}

impl XM125Radar {
    /// Whether the module has answered and has not been lost since.
    pub fn is_connected(&self) -> (connected: bool)
        ensures
            connected == self@.is_connected,
    {
        self.is_connected
    }

    /// Whether the distance detector has been calibrated.
    pub fn is_calibrated(&self) -> (calibrated: bool)
        ensures
            calibrated == self@.is_calibrated,
    {
        self.is_calibrated
    }

    /// When the distance detector was last calibrated.
    pub fn last_calibration(&self) -> (at: Option<u64>)
        ensures
            at == self@.last_calibration,
    {
        self.last_calibration
    }

    /// When the last measurement was taken.
    pub fn last_measurement(&self) -> (at: Option<u64>)
        ensures
            at == self@.last_measurement,
    {
        self.last_measurement
    }

    /// Whether continuous monitoring is switched on.
    pub fn is_continuous_monitoring(&self) -> (continuous: bool)
        ensures
            continuous == self@.continuous_mode,
    {
        self.continuous_mode
    }

    /// The detector in use.
    pub fn get_detector_mode(&self) -> (mode: DetectorMode)
        ensures
            mode == self@.config.detector_mode,
    {
        self.config.detector_mode
    }

    /// Replaces the configuration. Nothing is sent to the module.
    pub fn set_config(&mut self, config: XM125Config)
        ensures
            final(self)@ == (RadarState { config, ..old(self)@ }),
    {
        self.config = config;
    }

    /// Sets the distance range from text written as `start:end` in metres,
    /// each taken to the nearest millimetre. A text that denotes no range
    /// is rejected, and the session stays as it was.
    pub fn configure_distance_range(&mut self, range_str: &str) -> (r: Result<(), RadarError>)
        ensures
            match crate::config::spec_parse_range(range_str.spec_bytes()) {
                Ok(range) => r is Ok && final(self)@ == (RadarState {
                    config: crate::config::with_distance_range(
                        old(self)@.config,
                        range.0,
                        range.1,
                    ),
                    ..old(self)@
                }),
                Err(reason) => r == Err::<(), RadarError>(
                    RadarError::InvalidParameters { reason },
                ) && final(self)@ == old(self)@,
            },
    {
        let mut config = self.config;
        match crate::config::configure_distance_range(&mut config, range_str) {
            Ok(()) => {
                self.config = config;
                Ok(())
            },
            Err(error) => Err(error),
        }
    }

    /// Validates the presence parameters, applies them and configures the
    /// presence detector with them. On any fault nothing happens at all:
    /// the session stays as it was and no request is made.
    pub fn configure_presence_parameters(
        &mut self,
        presence_range: Option<crate::config::PresenceRange>,
        min_range_mm: Option<u32>,
        max_range_mm: Option<u32>,
        sensitivity: Option<u32>,
        frame_rate: Option<u32>,
        profile: crate::config::ProfileMode,
        now_ms: u64,
    ) -> (step: Step)
        ensures
            match crate::config::presence_parameter_fault(
                min_range_mm,
                max_range_mm,
                sensitivity,
                frame_rate,
            ) {
                Some(reason) => step == (Step::Failed {
                    error: RadarError::InvalidParameters { reason },
                }) && final(self)@ == old(self)@,
                None => (final(self)@, step) == (RadarState {
                    config: crate::config::with_presence_parameters(
                        old(self)@.config,
                        presence_range,
                        min_range_mm,
                        max_range_mm,
                        sensitivity,
                        frame_rate,
                        profile,
                    ),
                    ..old(self)@
                }).configure_presence_detector(now_ms),
            },
    {
        let mut config = self.config;
        match crate::config::configure_presence_parameters(
            &mut config,
            presence_range,
            min_range_mm,
            max_range_mm,
            sensitivity,
            frame_rate,
            profile,
        ) {
            Ok(()) => {
                self.config = config;
                self.configure_presence_detector(now_ms)
            },
            Err(error) => Step::Failed { error },
        }
    }

    /// Connects: see `RadarState::connect`.
    pub fn connect(&mut self, now_ms: u64) -> (step: Step)
        ensures
            (final(self)@, step) == old(self)@.connect(now_ms),
    {
        self.begin_probe(Goal::Connect, now_ms)
    }

    /// Probes the module once and, if it answers, configures the detector
    /// in use.
    pub fn connect_async(&mut self, now_ms: u64) -> (step: Step)
        ensures
            (final(self)@, step) == old(self)@.connect_async(now_ms),
    {
        self.begin_probe(Goal::ConnectAsync, now_ms)
    }

    /// Connects and configures, with up to three attempts: the first failure
    /// is followed by a hardware reset, the second by the retry delay, the
    /// third is reported.
    pub fn auto_connect(&mut self, now_ms: u64) -> (step: Step)
        ensures
            (final(self)@, step) == old(self)@.auto_connect(now_ms),
    {
        self.begin_probe(Goal::AutoConnect, now_ms)
    }

    /// Disables the detector as far as that is possible and marks the
    /// session disconnected. Never fails.
    pub fn disconnect(&mut self, now_ms: u64) -> (step: Step)
        ensures
            (final(self)@, step) == old(self)@.disconnect(now_ms),
    {
        if self.is_connected {
            self.goal = Goal::Disconnect;
            let script = build_single(
                Op::WriteBestEffort {
                    address: registers::REG_COMMAND,
                    value: registers::CMD_DISABLE_DETECTOR,
                },
            );
            self.start_own(Activity::Finish, script, now_ms)
        } else {
            Step::Finished { outcome: Outcome::Done }
        }
    }

    /// Reads the detector status word, connecting first if need be.
    pub fn get_status(&mut self, now_ms: u64) -> (step: Step)
        ensures
            (final(self)@, step) == old(self)@.get_status(now_ms),
    {
        if self.is_connected {
            self.goal = Goal::GetStatus;
            let script = build_single(Op::Read { address: registers::REG_DETECTOR_STATUS });
            self.start_own(Activity::Finish, script, now_ms)
        } else {
            self.begin_probe(Goal::GetStatus, now_ms)
        }
    }

    /// Reads the version and the application id, connecting first if need
    /// be.
    pub fn get_info(&mut self, now_ms: u64) -> (step: Step)
        ensures
            (final(self)@, step) == old(self)@.get_info(now_ms),
    {
        if self.is_connected {
            self.goal = Goal::GetInfo;
            self.start_own(Activity::Finish, build_info(), now_ms)
        } else {
            self.begin_probe(Goal::GetInfo, now_ms)
        }
    }

    /// Reads the application id register.
    pub fn read_application_id(&mut self, now_ms: u64) -> (step: Step)
        ensures
            (final(self)@, step) == old(self)@.read_application_id(now_ms),
    {
        self.goal = Goal::ReadApplicationId;
        let script = build_single(Op::Read { address: registers::REG_APPLICATION_ID });
        self.start_own(Activity::Finish, script, now_ms)
    }

    /// Calibrates the distance detector with the configured range.
    pub fn calibrate(&mut self, now_ms: u64) -> (step: Step)
        ensures
            (final(self)@, step) == old(self)@.calibrate(now_ms),
    {
        self.goal = Goal::Calibrate;
        self.start_recalibrate(now_ms)
    }

    /// Measures a distance. A session that is not connected connects
    /// first if it reconnects by itself. The detector is calibrated first
    /// when its calibration is missing or stale.
    pub fn measure_distance(&mut self, now_ms: u64) -> (step: Step)
        ensures
            (final(self)@, step) == old(self)@.begin_connected(Goal::MeasureDistance, now_ms),
    {
        self.begin_connected(Goal::MeasureDistance, now_ms)
    }

    /// Measures presence. The session has to be in presence or combined
    /// mode.
    pub fn measure_presence(&mut self, now_ms: u64) -> (step: Step)
        ensures
            (final(self)@, step) == old(self)@.begin_connected(Goal::MeasurePresence, now_ms),
    {
        self.begin_connected(Goal::MeasurePresence, now_ms)
    }

    /// Measures breathing.
    pub fn measure_breathing(&mut self, now_ms: u64) -> (step: Step)
        ensures
            (final(self)@, step) == old(self)@.begin_connected(Goal::MeasureBreathing, now_ms),
    {
        self.begin_connected(Goal::MeasureBreathing, now_ms)
    }

    /// Measures distance and presence. A half that fails is left out.
    pub fn measure_combined(&mut self, now_ms: u64) -> (step: Step)
        ensures
            (final(self)@, step) == old(self)@.begin_connected(Goal::MeasureCombined, now_ms),
    {
        self.begin_connected(Goal::MeasureCombined, now_ms)
    }

    /// Switches continuous monitoring on, connecting first if need be.
    pub fn start_continuous_monitoring(&mut self, now_ms: u64) -> (step: Step)
        ensures
            (final(self)@, step) == old(self)@.begin_connected(Goal::StartContinuous, now_ms),
    {
        self.begin_connected(Goal::StartContinuous, now_ms)
    }

    /// Switches continuous monitoring off if it is on.
    pub fn stop_continuous_monitoring(&mut self, now_ms: u64) -> (step: Step)
        ensures
            (final(self)@, step) == old(self)@.stop_continuous_monitoring(now_ms),
    {
        if self.continuous_mode {
            self.goal = Goal::StopContinuous;
            let script = build_single(
                Op::Command {
                    app: application(self.config.detector_mode),
                    code: registers::CMD_DISABLE_CONTINUOUS_MODE,
                },
            );
            self.start_own(Activity::Finish, script, now_ms)
        } else {
            Step::Finished { outcome: Outcome::Done }
        }
    }

    /// Selects a detector. A connected session whose mode changes by it
    /// configures and calibrates the new detector before it ends.
    pub fn set_detector_mode(&mut self, mode: DetectorMode, now_ms: u64) -> (step: Step)
        ensures
            (final(self)@, step) == old(self)@.set_detector_mode(mode, now_ms),
    {
        let changed = !(self.config.detector_mode == mode);
        self.config.detector_mode = mode;
        if self.is_connected && changed {
            self.goal = Goal::Configure;
            self.begin_configure(now_ms)
        } else {
            Step::Finished { outcome: Outcome::Done }
        }
    }

    /// Selects the presence detector and configures it: its registers are
    /// written, then the whole apply sequence runs.
    pub fn configure_presence_detector(&mut self, now_ms: u64) -> (step: Step)
        ensures
            (final(self)@, step) == old(self)@.configure_presence_detector(now_ms),
    {
        self.config.detector_mode = DetectorMode::Presence;
        self.goal = Goal::Configure;
        self.start_configure_presence(now_ms)
    }

    /// The same as `configure_presence_detector`.
    pub fn configure_presence_range(&mut self, now_ms: u64) -> (step: Step)
        ensures
            (final(self)@, step) == old(self)@.configure_presence_detector(now_ms),
    {
        self.configure_presence_detector(now_ms)
    }

    /// Selects the distance detector, configures and calibrates it.
    pub fn configure_distance_detector(&mut self, now_ms: u64) -> (step: Step)
        ensures
            (final(self)@, step) == old(self)@.configure_distance_detector(now_ms),
    {
        self.config.detector_mode = DetectorMode::Distance;
        self.goal = Goal::Configure;
        self.start_configure_distance(now_ms)
    }

    /// Starts the presence detector.
    pub fn start_presence_detector(&mut self, now_ms: u64) -> (step: Step)
        ensures
            (final(self)@, step) == old(self)@.start_presence_control(
                crate::presence::start_script(),
                now_ms,
            ),
    {
        let step = self.presence.start_detector(now_ms);
        self.goal = Goal::PresenceControl;
        self.activity = Activity::PresenceControl;
        self.expect_ask(step)
    }

    /// Stops the presence detector.
    pub fn stop_presence_detector(&mut self, now_ms: u64) -> (step: Step)
        ensures
            (final(self)@, step) == old(self)@.start_presence_control(
                crate::presence::stop_script(),
                now_ms,
            ),
    {
        let step = self.presence.stop_detector(now_ms);
        self.goal = Goal::PresenceControl;
        self.activity = Activity::PresenceControl;
        self.expect_ask(step)
    }
}

} // verus!
