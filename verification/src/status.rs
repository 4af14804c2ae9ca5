//! Detector status words, one mask table per application.
//!
//! The same bit position means different things to different applications:
//! bit 3 is detector-create-ok for the distance detector and
//! sensor-calibrate-ok for the presence detector. Each application therefore
//! has its own status type, and a raw word becomes one of them only by
//! naming the application.

use vstd::prelude::*;
use crate::registers;

verus! {

/// The detector applications the module can run.
#[derive(Clone, Copy, Debug, PartialEq, Eq, Structural)]
pub enum Application {
    Distance,
    Presence,
    Breathing,
}

/// The sub-steps of bringing a detector up. The status word has an ok bit
/// and an error bit for each.
#[derive(Clone, Copy, Debug, PartialEq, Eq, Structural)]
pub enum SetupStep {
    RssRegister,
    ConfigCreate,
    SensorCreate,
    SensorCalibrate,
    DetectorCreate,
    DetectorBuffer,
    SensorBuffer,
    CalibrationBuffer,
    ConfigApply,
    DetectorCalibrate,
    /// The detector itself; it has an error bit and no ok bit.
    Detector,
}

impl Application {
    /// The OR of all error bits of the application's status word.
    #[verifier::allow_in_spec]
    pub fn error_mask(self) -> u32
        returns
            match self {
                Application::Distance => registers::STATUS_DISTANCE_ALL_ERROR_MASK,
                Application::Presence => registers::STATUS_PRESENCE_ALL_ERROR_MASK,
                Application::Breathing => registers::STATUS_BREATHING_ERROR,
            },
    {
        match self {
            Application::Distance => registers::STATUS_DISTANCE_ALL_ERROR_MASK,
            Application::Presence => registers::STATUS_PRESENCE_ALL_ERROR_MASK,
            Application::Breathing => registers::STATUS_BREATHING_ERROR,
        }
    }

    /// Whether `status`, read from this application, shows an error bit.
    #[verifier::allow_in_spec]
    pub fn has_errors(self, status: u32) -> bool
        returns
            status & self.error_mask() != 0,
    {
        status & self.error_mask() != 0
    }

    /// Time the application needs after a module reset, in milliseconds.
    #[verifier::allow_in_spec]
    pub fn reset_settle_ms(self) -> u64
        returns
            match self {
                Application::Presence => registers::PRESENCE_RESET_SETTLE_MS,
                _ => registers::DISTANCE_RESET_SETTLE_MS,
            },
    {
        match self {
            Application::Presence => registers::PRESENCE_RESET_SETTLE_MS,
            _ => registers::DISTANCE_RESET_SETTLE_MS,
        }
    }

    /// The error bit of `step` in this application's status word, or 0
    /// where the application has no such step.
    #[verifier::allow_in_spec]
    pub fn error_bit(self, step: SetupStep) -> u32
        returns
            match self {
                Application::Distance => match step {
                    SetupStep::RssRegister => registers::STATUS_DISTANCE_RSS_REGISTER_ERROR,
                    SetupStep::ConfigCreate => registers::STATUS_DISTANCE_CONFIG_CREATE_ERROR,
                    SetupStep::SensorCreate => registers::STATUS_DISTANCE_SENSOR_CREATE_ERROR,
                    SetupStep::SensorCalibrate => registers::STATUS_DISTANCE_SENSOR_CALIBRATE_ERROR,
                    SetupStep::DetectorCreate => registers::STATUS_DISTANCE_DETECTOR_CREATE_ERROR,
                    SetupStep::DetectorBuffer => registers::STATUS_DISTANCE_DETECTOR_BUFFER_ERROR,
                    SetupStep::SensorBuffer => registers::STATUS_DISTANCE_SENSOR_BUFFER_ERROR,
                    SetupStep::CalibrationBuffer => registers::STATUS_DISTANCE_CALIBRATION_BUFFER_ERROR,
                    SetupStep::ConfigApply => registers::STATUS_DISTANCE_CONFIG_APPLY_ERROR,
                    SetupStep::DetectorCalibrate => registers::STATUS_DISTANCE_DETECTOR_CALIBRATE_ERROR,
                    SetupStep::Detector => registers::STATUS_DISTANCE_DETECTOR_ERROR,
                },
                Application::Presence => match step {
                    SetupStep::RssRegister => registers::STATUS_PRESENCE_RSS_REGISTER_ERROR,
                    SetupStep::ConfigCreate => registers::STATUS_PRESENCE_CONFIG_CREATE_ERROR,
                    SetupStep::SensorCreate => registers::STATUS_PRESENCE_SENSOR_CREATE_ERROR,
                    SetupStep::SensorCalibrate => registers::STATUS_PRESENCE_SENSOR_CALIBRATE_ERROR,
                    SetupStep::DetectorCreate => registers::STATUS_PRESENCE_DETECTOR_CREATE_ERROR,
                    SetupStep::DetectorBuffer => registers::STATUS_PRESENCE_DETECTOR_BUFFER_ERROR,
                    SetupStep::SensorBuffer => registers::STATUS_PRESENCE_SENSOR_BUFFER_ERROR,
                    SetupStep::ConfigApply => registers::STATUS_PRESENCE_CONFIG_APPLY_ERROR,
                    SetupStep::Detector => registers::STATUS_PRESENCE_DETECTOR_ERROR,
                    _ => 0u32,
                },
                Application::Breathing => match step {
                    SetupStep::Detector => registers::STATUS_BREATHING_ERROR,
                    _ => 0u32,
                },
            },
    {
        match self {
            Application::Distance => match step {
                SetupStep::RssRegister => registers::STATUS_DISTANCE_RSS_REGISTER_ERROR,
                SetupStep::ConfigCreate => registers::STATUS_DISTANCE_CONFIG_CREATE_ERROR,
                SetupStep::SensorCreate => registers::STATUS_DISTANCE_SENSOR_CREATE_ERROR,
                SetupStep::SensorCalibrate => registers::STATUS_DISTANCE_SENSOR_CALIBRATE_ERROR,
                SetupStep::DetectorCreate => registers::STATUS_DISTANCE_DETECTOR_CREATE_ERROR,
                SetupStep::DetectorBuffer => registers::STATUS_DISTANCE_DETECTOR_BUFFER_ERROR,
                SetupStep::SensorBuffer => registers::STATUS_DISTANCE_SENSOR_BUFFER_ERROR,
                SetupStep::CalibrationBuffer => registers::STATUS_DISTANCE_CALIBRATION_BUFFER_ERROR,
                SetupStep::ConfigApply => registers::STATUS_DISTANCE_CONFIG_APPLY_ERROR,
                SetupStep::DetectorCalibrate => registers::STATUS_DISTANCE_DETECTOR_CALIBRATE_ERROR,
                SetupStep::Detector => registers::STATUS_DISTANCE_DETECTOR_ERROR,
            },
            Application::Presence => match step {
                SetupStep::RssRegister => registers::STATUS_PRESENCE_RSS_REGISTER_ERROR,
                SetupStep::ConfigCreate => registers::STATUS_PRESENCE_CONFIG_CREATE_ERROR,
                SetupStep::SensorCreate => registers::STATUS_PRESENCE_SENSOR_CREATE_ERROR,
                SetupStep::SensorCalibrate => registers::STATUS_PRESENCE_SENSOR_CALIBRATE_ERROR,
                SetupStep::DetectorCreate => registers::STATUS_PRESENCE_DETECTOR_CREATE_ERROR,
                SetupStep::DetectorBuffer => registers::STATUS_PRESENCE_DETECTOR_BUFFER_ERROR,
                SetupStep::SensorBuffer => registers::STATUS_PRESENCE_SENSOR_BUFFER_ERROR,
                SetupStep::ConfigApply => registers::STATUS_PRESENCE_CONFIG_APPLY_ERROR,
                SetupStep::Detector => registers::STATUS_PRESENCE_DETECTOR_ERROR,
                _ => 0u32,
            },
            Application::Breathing => match step {
                SetupStep::Detector => registers::STATUS_BREATHING_ERROR,
                _ => 0u32,
            },
        }
    }
}


impl Application {
    /// The ok bit of `step` in this application's status word, or 0 where
    /// the application has no such bit.
    #[verifier::allow_in_spec]
    pub fn ok_bit(self, step: SetupStep) -> u32
        returns
            match self {
                Application::Distance => match step {
                    SetupStep::RssRegister => registers::STATUS_DISTANCE_RSS_REGISTER_OK,
                    SetupStep::ConfigCreate => registers::STATUS_DISTANCE_CONFIG_CREATE_OK,
                    SetupStep::SensorCreate => registers::STATUS_DISTANCE_SENSOR_CREATE_OK,
                    SetupStep::SensorCalibrate => registers::STATUS_DISTANCE_SENSOR_CALIBRATE_OK,
                    SetupStep::DetectorCreate => registers::STATUS_DISTANCE_DETECTOR_CREATE_OK,
                    SetupStep::DetectorBuffer => registers::STATUS_DISTANCE_DETECTOR_BUFFER_OK,
                    SetupStep::SensorBuffer => registers::STATUS_DISTANCE_SENSOR_BUFFER_OK,
                    SetupStep::CalibrationBuffer => registers::STATUS_DISTANCE_CALIBRATION_BUFFER_OK,
                    SetupStep::ConfigApply => registers::STATUS_DISTANCE_CONFIG_APPLY_OK,
                    SetupStep::DetectorCalibrate => registers::STATUS_DISTANCE_DETECTOR_CALIBRATE_OK,
                    SetupStep::Detector => 0u32,
                },
                Application::Presence => match step {
                    SetupStep::RssRegister => registers::STATUS_PRESENCE_RSS_REGISTER_OK,
                    SetupStep::ConfigCreate => registers::STATUS_PRESENCE_CONFIG_CREATE_OK,
                    SetupStep::SensorCreate => registers::STATUS_PRESENCE_SENSOR_CREATE_OK,
                    SetupStep::SensorCalibrate => registers::STATUS_PRESENCE_SENSOR_CALIBRATE_OK,
                    SetupStep::DetectorCreate => registers::STATUS_PRESENCE_DETECTOR_CREATE_OK,
                    SetupStep::DetectorBuffer => registers::STATUS_PRESENCE_DETECTOR_BUFFER_OK,
                    SetupStep::SensorBuffer => registers::STATUS_PRESENCE_SENSOR_BUFFER_OK,
                    SetupStep::ConfigApply => registers::STATUS_PRESENCE_CONFIG_APPLY_OK,
                    _ => 0u32,
                },
                Application::Breathing => 0u32,
            },
    {
        match self {
            Application::Distance => match step {
                SetupStep::RssRegister => registers::STATUS_DISTANCE_RSS_REGISTER_OK,
                SetupStep::ConfigCreate => registers::STATUS_DISTANCE_CONFIG_CREATE_OK,
                SetupStep::SensorCreate => registers::STATUS_DISTANCE_SENSOR_CREATE_OK,
                SetupStep::SensorCalibrate => registers::STATUS_DISTANCE_SENSOR_CALIBRATE_OK,
                SetupStep::DetectorCreate => registers::STATUS_DISTANCE_DETECTOR_CREATE_OK,
                SetupStep::DetectorBuffer => registers::STATUS_DISTANCE_DETECTOR_BUFFER_OK,
                SetupStep::SensorBuffer => registers::STATUS_DISTANCE_SENSOR_BUFFER_OK,
                SetupStep::CalibrationBuffer => registers::STATUS_DISTANCE_CALIBRATION_BUFFER_OK,
                SetupStep::ConfigApply => registers::STATUS_DISTANCE_CONFIG_APPLY_OK,
                SetupStep::DetectorCalibrate => registers::STATUS_DISTANCE_DETECTOR_CALIBRATE_OK,
                SetupStep::Detector => 0u32,
            },
            Application::Presence => match step {
                SetupStep::RssRegister => registers::STATUS_PRESENCE_RSS_REGISTER_OK,
                SetupStep::ConfigCreate => registers::STATUS_PRESENCE_CONFIG_CREATE_OK,
                SetupStep::SensorCreate => registers::STATUS_PRESENCE_SENSOR_CREATE_OK,
                SetupStep::SensorCalibrate => registers::STATUS_PRESENCE_SENSOR_CALIBRATE_OK,
                SetupStep::DetectorCreate => registers::STATUS_PRESENCE_DETECTOR_CREATE_OK,
                SetupStep::DetectorBuffer => registers::STATUS_PRESENCE_DETECTOR_BUFFER_OK,
                SetupStep::SensorBuffer => registers::STATUS_PRESENCE_SENSOR_BUFFER_OK,
                SetupStep::ConfigApply => registers::STATUS_PRESENCE_CONFIG_APPLY_OK,
                _ => 0u32,
            },
            Application::Breathing => 0u32,
        }
    }

    /// Whether `status`, read from this application, reports that `step`
    /// has succeeded.
    #[verifier::allow_in_spec]
    pub fn step_ok(self, status: u32, step: SetupStep) -> bool
        returns
            status & self.ok_bit(step) != 0,
    {
        status & self.ok_bit(step) != 0
    }

    /// Whether `status`, read from this application, reports that `step`
    /// has failed.
    #[verifier::allow_in_spec]
    pub fn step_failed(self, status: u32, step: SetupStep) -> bool
        returns
            status & self.error_bit(step) != 0,
    {
        status & self.error_bit(step) != 0
    }
}

/// Number of sub-steps a status word reports on.
pub const SETUP_STEP_COUNT: usize = 11;

/// The sub-steps in the order in which failures are reported.
pub open spec fn setup_step(i: int) -> SetupStep {
    if i == 0 {
        SetupStep::RssRegister
    } else if i == 1 {
        SetupStep::ConfigCreate
    } else if i == 2 {
        SetupStep::SensorCreate
    } else if i == 3 {
        SetupStep::SensorCalibrate
    } else if i == 4 {
        SetupStep::DetectorCreate
    } else if i == 5 {
        SetupStep::DetectorBuffer
    } else if i == 6 {
        SetupStep::SensorBuffer
    } else if i == 7 {
        SetupStep::CalibrationBuffer
    } else if i == 8 {
        SetupStep::ConfigApply
    } else if i == 9 {
        SetupStep::DetectorCalibrate
    } else {
        SetupStep::Detector
    }
}

/// Position of a sub-step in the reporting order.
pub open spec fn setup_step_index(step: SetupStep) -> int {
    match step {
        SetupStep::RssRegister => 0,
        SetupStep::ConfigCreate => 1,
        SetupStep::SensorCreate => 2,
        SetupStep::SensorCalibrate => 3,
        SetupStep::DetectorCreate => 4,
        SetupStep::DetectorBuffer => 5,
        SetupStep::SensorBuffer => 6,
        SetupStep::CalibrationBuffer => 7,
        SetupStep::ConfigApply => 8,
        SetupStep::DetectorCalibrate => 9,
        SetupStep::Detector => 10,
    }
}

/// The failed ones among the first `n` sub-steps, in reporting order.
pub open spec fn failed_among(app: Application, status: u32, n: int) -> Seq<SetupStep>
    decreases n,
{
    if n <= 0 {
        Seq::empty()
    } else if app.step_failed(status, setup_step(n - 1)) {
        failed_among(app, status, n - 1).push(setup_step(n - 1))
    } else {
        failed_among(app, status, n - 1)
    }
}

/// The sub-steps that `status` blames, in reporting order.
pub open spec fn spec_failed_steps(app: Application, status: u32) -> Seq<SetupStep> {
    failed_among(app, status, SETUP_STEP_COUNT as int)
}

/// Among the first `n` sub-steps, `failed_among` holds exactly those whose
/// error bit is set.
pub proof fn lemma_failed_among_exact(app: Application, status: u32, n: int, step: SetupStep)
    requires
        0 <= n <= SETUP_STEP_COUNT,
    ensures
        failed_among(app, status, n).contains(step) <==> (setup_step_index(step) < n
            && app.step_failed(status, step)),
    decreases n,
{
    if n > 0 {
        lemma_failed_among_exact(app, status, n - 1, step);
        let prev = failed_among(app, status, n - 1);
        let last = setup_step(n - 1);
        assert(setup_step_index(last) == n - 1);
        if app.step_failed(status, last) {
            let cur = prev.push(last);
            assert(cur[cur.len() - 1] == last);
            assert forall|i: int| 0 <= i < prev.len() implies cur[i] == prev[i] by {}
            if prev.contains(step) {
                let i = choose|i: int| 0 <= i < prev.len() && prev[i] == step;
                assert(cur[i] == step);
            }
            if cur.contains(step) {
                let i = choose|i: int| 0 <= i < cur.len() && cur[i] == step;
                if i < prev.len() {
                    assert(prev[i] == step);
                }
            }
        }
    }
}

/// A status word blames a sub-step exactly when that sub-step's error bit
/// is set in it: no sub-step is reported without its bit, and none with its
/// bit is left out.
pub proof fn lemma_failed_steps_exact(app: Application, status: u32, step: SetupStep)
    ensures
        spec_failed_steps(app, status).contains(step) <==> app.step_failed(status, step),
{
    lemma_failed_among_exact(app, status, SETUP_STEP_COUNT as int, step);
}

/// The sub-steps that `status`, read from `app`, reports as failed.
pub fn failed_steps(app: Application, status: u32) -> (out: Vec<SetupStep>)
    ensures
        out@ == spec_failed_steps(app, status),
        forall|step: SetupStep| out@.contains(step) <==> app.step_failed(status, step),
{
    let steps = [
        SetupStep::RssRegister,
        SetupStep::ConfigCreate,
        SetupStep::SensorCreate,
        SetupStep::SensorCalibrate,
        SetupStep::DetectorCreate,
        SetupStep::DetectorBuffer,
        SetupStep::SensorBuffer,
        SetupStep::CalibrationBuffer,
        SetupStep::ConfigApply,
        SetupStep::DetectorCalibrate,
        SetupStep::Detector,
    ];
    let mut out: Vec<SetupStep> = Vec::new();
    let mut i: usize = 0;
    while i < SETUP_STEP_COUNT
        invariant
            i <= SETUP_STEP_COUNT,
            steps@.len() == SETUP_STEP_COUNT,
            forall|k: int| 0 <= k < SETUP_STEP_COUNT ==> steps@[k] == setup_step(k),
            out@ == failed_among(app, status, i as int),
        decreases SETUP_STEP_COUNT - i,
    {
        let step = steps[i];
        if app.step_failed(status, step) {
            out.push(step);
        }
        i = i + 1;
    }
    proof {
        assert forall|step: SetupStep| out@.contains(step) <==> app.step_failed(
            status,
            step,
        ) by {
            lemma_failed_steps_exact(app, status, step);
        }
    }
    out
}

/// A status word of the distance detector.
#[derive(Clone, Copy, Debug, PartialEq, Eq, Structural)]
pub struct DistanceStatus {
    pub word: u32,
}

impl DistanceStatus {
    #[verifier::allow_in_spec]
    pub fn is_busy(self) -> bool
        returns
            self.word & registers::STATUS_DISTANCE_BUSY != 0,
    {
        self.word & registers::STATUS_DISTANCE_BUSY != 0
    }

    #[verifier::allow_in_spec]
    pub fn has_errors(self) -> bool
        returns
            Application::Distance.has_errors(self.word),
    {
        Application::Distance.has_errors(self.word)
    }

    #[verifier::allow_in_spec]
    pub fn sensor_calibrate_ok(self) -> bool
        returns
            self.word & registers::STATUS_DISTANCE_SENSOR_CALIBRATE_OK != 0,
    {
        self.word & registers::STATUS_DISTANCE_SENSOR_CALIBRATE_OK != 0
    }

    #[verifier::allow_in_spec]
    pub fn detector_create_ok(self) -> bool
        returns
            self.word & registers::STATUS_DISTANCE_DETECTOR_CREATE_OK != 0,
    {
        self.word & registers::STATUS_DISTANCE_DETECTOR_CREATE_OK != 0
    }

    /// Calibration is complete once the sensor is calibrated and the
    /// detector exists.
    #[verifier::allow_in_spec]
    pub fn calibrated(self) -> bool
        returns
            self.sensor_calibrate_ok() && self.detector_create_ok(),
    {
        self.sensor_calibrate_ok() && self.detector_create_ok()
    }

    #[verifier::allow_in_spec]
    pub fn measurement_ready(self) -> bool
        returns
            self.word & registers::STATUS_MEASUREMENT_READY != 0,
    {
        self.word & registers::STATUS_MEASUREMENT_READY != 0
    }
}

/// A status word of the presence detector.
#[derive(Clone, Copy, Debug, PartialEq, Eq, Structural)]
pub struct PresenceStatus {
    pub word: u32,
}

impl PresenceStatus {
    #[verifier::allow_in_spec]
    pub fn is_busy(self) -> bool
        returns
            self.word & registers::STATUS_PRESENCE_BUSY != 0,
    {
        self.word & registers::STATUS_PRESENCE_BUSY != 0
    }

    #[verifier::allow_in_spec]
    pub fn has_errors(self) -> bool
        returns
            Application::Presence.has_errors(self.word),
    {
        Application::Presence.has_errors(self.word)
    }

    #[verifier::allow_in_spec]
    pub fn sensor_calibrate_ok(self) -> bool
        returns
            self.word & registers::STATUS_PRESENCE_SENSOR_CALIBRATE_OK != 0,
    {
        self.word & registers::STATUS_PRESENCE_SENSOR_CALIBRATE_OK != 0
    }

    #[verifier::allow_in_spec]
    pub fn detector_create_ok(self) -> bool
        returns
            self.word & registers::STATUS_PRESENCE_DETECTOR_CREATE_OK != 0,
    {
        self.word & registers::STATUS_PRESENCE_DETECTOR_CREATE_OK != 0
    }
}

/// What a poll waits for.
#[derive(Clone, Copy, Debug, PartialEq, Eq, Structural)]
pub enum Condition {
    /// The busy bit is clear.
    NotBusy,
    /// The distance detector has been configured and calibrated.
    DistanceCalibrated,
    /// The distance detector has a measurement to read.
    MeasurementReady,
    /// The application is neither busy nor in error, so that its result
    /// registers hold a whole measurement.
    Settled { app: Application },
}

/// What one status word means to a poll.
#[derive(Clone, Copy, Debug, PartialEq, Eq, Structural)]
pub enum Verdict {
    Satisfied,
    Pending,
    Failed { error: crate::error::RadarError },
}

impl Condition {
    /// The bounded wait that a poll for this condition is.
    #[verifier::allow_in_spec]
    pub fn operation(self) -> crate::error::Operation
        returns
            match self {
                Condition::NotBusy => crate::error::Operation::BusyWait,
                Condition::DistanceCalibrated => crate::error::Operation::Calibration,
                Condition::MeasurementReady => crate::error::Operation::Measurement,
                Condition::Settled { .. } => crate::error::Operation::Measurement,
            },
    {
        match self {
            Condition::NotBusy => crate::error::Operation::BusyWait,
            Condition::DistanceCalibrated => crate::error::Operation::Calibration,
            Condition::MeasurementReady => crate::error::Operation::Measurement,
            Condition::Settled { .. } => crate::error::Operation::Measurement,
        }
    }

    /// Judges one status word.
    ///
    /// A busy device is never ready, whatever its other bits say. Error
    /// bits fail a calibration or measurement poll once the device is no
    /// longer busy; the wait for the busy bit alone ignores them.
    pub open spec fn spec_judge(self, status: u32) -> Verdict {
        if registers::status_busy(status) {
            Verdict::Pending
        } else {
            match self {
                Condition::NotBusy => Verdict::Satisfied,
                Condition::DistanceCalibrated => {
                    let word = DistanceStatus { word: status };
                    if word.has_errors() {
                        Verdict::Failed {
                            error: crate::error::RadarError::DeviceError {
                                fault: crate::error::DeviceFault::CalibrationFailed { status },
                            },
                        }
                    } else if word.calibrated() {
                        Verdict::Satisfied
                    } else {
                        Verdict::Pending
                    }
                },
                Condition::MeasurementReady => {
                    let word = DistanceStatus { word: status };
                    if word.has_errors() {
                        Verdict::Failed {
                            error: crate::error::RadarError::DeviceError {
                                fault: crate::error::DeviceFault::MeasurementFailed { status },
                            },
                        }
                    } else if word.measurement_ready() {
                        Verdict::Satisfied
                    } else {
                        Verdict::Pending
                    }
                },
                Condition::Settled { app } => if app.has_errors(status) {
                    Verdict::Failed {
                        error: crate::error::RadarError::DeviceError {
                            fault: crate::error::DeviceFault::MeasurementFailed { status },
                        },
                    }
                } else {
                    Verdict::Satisfied
                },
            }
        }
    }

    #[verifier::when_used_as_spec(spec_judge)]
    pub fn judge(self, status: u32) -> (v: Verdict)
        ensures
            v == self.spec_judge(status),
    {
        if registers::status_busy(status) {
            Verdict::Pending
        } else {
            match self {
                Condition::NotBusy => Verdict::Satisfied,
                Condition::DistanceCalibrated => {
                    let word = DistanceStatus { word: status };
                    if word.has_errors() {
                        Verdict::Failed {
                            error: crate::error::RadarError::DeviceError {
                                fault: crate::error::DeviceFault::CalibrationFailed { status },
                            },
                        }
                    } else if word.calibrated() {
                        Verdict::Satisfied
                    } else {
                        Verdict::Pending
                    }
                },
                Condition::MeasurementReady => {
                    let word = DistanceStatus { word: status };
                    if word.has_errors() {
                        Verdict::Failed {
                            error: crate::error::RadarError::DeviceError {
                                fault: crate::error::DeviceFault::MeasurementFailed { status },
                            },
                        }
                    } else if word.measurement_ready() {
                        Verdict::Satisfied
                    } else {
                        Verdict::Pending
                    }
                },
                Condition::Settled { app } => if app.has_errors(status) {
                    Verdict::Failed {
                        error: crate::error::RadarError::DeviceError {
                            fault: crate::error::DeviceFault::MeasurementFailed { status },
                        },
                    }
                } else {
                    Verdict::Satisfied
                },
            }
        }
    }
}

} // verus!
