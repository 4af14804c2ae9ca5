//! What holds of every radar session.
//!
//! The laws of the session: when it calibrates, how it connects, that it
//! never fails to disconnect, and that it never issues a command to a busy
//! device.

use vstd::prelude::*;
use crate::config::DetectorMode;
use crate::error::RadarError;
use crate::gpio::XM125GpioPins;
use crate::host::Reply;
use crate::ops::Op;
use crate::outcome::Outcome;
use crate::outcome::Step;
use crate::radar::application;
use crate::radar::application_id_script;
use crate::radar::calibration_due;
use crate::radar::command_script;
use crate::radar::hardware_reset_script;
use crate::radar::info_script;
use crate::radar::pause_script;
use crate::radar::probe_script;
use crate::radar::Activity;
use crate::radar::Driver;
use crate::radar::Goal;
use crate::radar::RadarState;
use crate::registers;
use crate::runner::Progress;
use crate::runner::RunnerState;
use crate::status::Application;

verus! {

/// Calibration staleness. A distance measurement on a connected session
/// begins with a calibration exactly when the detector was never
/// calibrated or its calibration is older than five minutes; otherwise it
/// begins with the measurement itself.
pub proof fn lemma_stale_calibration_is_renewed(state: RadarState, now_ms: u64)
    requires
        state.is_connected,
    ensures
        ({
            let (next, step) = state.begin_connected(Goal::MeasureDistance, now_ms);
            if calibration_due(state.is_calibrated, state.last_calibration, now_ms) {
                &&& next.activity == Activity::Recalibrate
                &&& step == (Step::Ask {
                    request: crate::host::Request::WriteRegister {
                        address: registers::REG_START_CONFIG,
                        value: crate::distance::effective_start_mm(&state.config),
                    },
                })
            } else {
                &&& next.activity == Activity::MeasureDistance
                &&& step == (Step::Ask { request: crate::ops::status_read() })
            }
        }),
{
}

/// A calibration that ended well is followed by the measurement, and the
/// session remembers when it calibrated.
pub proof fn lemma_measurement_follows_calibration(state: RadarState, now_ms: u64)
    requires
        state.activity == Activity::Recalibrate,
        state.goal == Goal::MeasureDistance,
    ensures
        ({
            let (next, step) = state.succeeded(Outcome::Done, now_ms);
            &&& next.activity == Activity::MeasureDistance
            &&& next.is_calibrated
            &&& next.last_calibration == Some(now_ms)
            &&& step == (Step::Ask { request: crate::ops::status_read() })
        }),
{
}

/// A calibration that the detector runs within a distance measurement
/// renews the session's calibration. When such a measurement ends, well
/// or not, the session counts as calibrated at the time at which that
/// calibration completed; a measurement within which the detector ran no
/// calibration leaves the session's calibration as it was.
pub proof fn lemma_recalibration_renews_the_calibration(
    state: RadarState,
    now_ms: u64,
    reply: Reply,
)
    requires
        state.activity == Activity::MeasureDistance,
        !(state.distance.resume(now_ms, reply).1 is Ask),
    ensures
        ({
            let next = state.resume(now_ms, reply).0;
            match state.distance.resume(now_ms, reply).0.recalibrated_at {
                Some(at) => next.is_calibrated && next.last_calibration == Some(at),
                None => next.is_calibrated == state.is_calibrated && next.last_calibration
                    == state.last_calibration,
            }
        }),
{
}

/// While a distance measurement goes on, the session's calibration stands
/// as it was.
pub proof fn lemma_measurement_in_progress_keeps_the_calibration(
    state: RadarState,
    now_ms: u64,
    reply: Reply,
)
    requires
        state.activity == Activity::MeasureDistance,
        state.distance.resume(now_ms, reply).1 is Ask,
    ensures
        state.resume(now_ms, reply).0.is_calibrated == state.is_calibrated,
        state.resume(now_ms, reply).0.last_calibration == state.last_calibration,
        state.resume(now_ms, reply).0.activity == Activity::MeasureDistance,
{
}

/// A module that does not answer the first probe of `connect` is not
/// reported as disconnected: the hardware reset begins instead.
pub proof fn lemma_connect_resets_before_giving_up(state: RadarState, begun_ms: u64, now_ms: u64)
    ensures
        ({
            let (probing, first) = state.connect(begun_ms);
            let (next, step) = probing.resume(now_ms, Reply::Failed);
            &&& first == (Step::Ask { request: crate::ops::status_read() })
            &&& next.activity == Activity::HardwareReset
            &&& step == (Step::Ask {
                request: crate::host::Request::ProbePin { pin: state.gpio_pins.boot },
            })
        }),
{
}

/// A probe that is answered connects the session.
pub proof fn lemma_answered_probe_connects(state: RadarState, now_ms: u64, word: u32)
    requires
        state.activity == Activity::Probe,
        state.goal == Goal::Connect,
        state.runner == RunnerState::fresh(probe_script()).start(now_ms).0,
    ensures
        ({
            let (next, step) = state.resume(now_ms, Reply::Word { value: word });
            &&& next.is_connected
            &&& step == (Step::Finished { outcome: Outcome::Done })
        }),
{
}

/// A disconnection never fails, and the session is disconnected after it.
pub proof fn lemma_disconnect_never_fails(state: RadarState, begun_ms: u64, now_ms: u64, reply: Reply)
    requires
        state.is_connected,
        reply == Reply::Done || reply == Reply::Failed,
    ensures
        ({
            let (leaving, first) = state.disconnect(begun_ms);
            let (next, step) = leaving.resume(now_ms, reply);
            &&& first is Ask
            &&& !next.is_connected
            &&& step == (Step::Finished { outcome: Outcome::Done })
        }),
{
}

/// A goal that ends on a failed bus transaction leaves the session
/// disconnected; one that ends on a timeout or on an error of the device
/// leaves the connection as it was.
pub proof fn lemma_lost_bus_disconnects(state: RadarState, error: RadarError)
    ensures
        !state.finish_err(RadarError::Bus).0.is_connected,
        (error is Timeout || error is DeviceError) ==> state.finish_err(error).0.is_connected
            == state.is_connected,
{
}

/// Every activity of the session begins with a request: a session never
/// reports an invalid response of its own making.
pub proof fn lemma_activities_begin_with_requests(state: RadarState, now_ms: u64)
    ensures
        state.start_probe(now_ms).1 is Ask,
        state.start_hardware_reset(now_ms).1 is Ask,
        state.start_pause(registers::BOOT_WAIT_MS, now_ms).1 is Ask,
        state.start_configure_distance(now_ms).1 is Ask,
        state.start_calibrate_distance(now_ms).1 is Ask,
        state.start_recalibrate(now_ms).1 is Ask,
        state.start_measure_distance(now_ms).1 is Ask,
        state.start_configure_presence(now_ms).1 is Ask,
        state.start_apply_presence(now_ms).1 is Ask,
        state.start_measure_presence(now_ms).1 is Ask,
        state.start_configure_breathing(now_ms).1 is Ask,
        state.start_apply_breathing(now_ms).1 is Ask,
        state.start_measure_breathing(now_ms).1 is Ask,
{
    let reset = hardware_reset_script(state.gpio_pins);
    assert(reset[0] == Op::FreeBootPin { pin: state.gpio_pins.boot });
    let thresholds = state.presence_thresholds();
    assert(thresholds[0] == Op::Write {
        address: registers::PRESENCE_REG_START_ADDRESS,
        value: state.config.presence_start_mm(),
    });
}

impl RadarState {
    /// Whether the sequence in execution issues its commands under the
    /// busy/error discipline only. The one sequence that does not is the
    /// disconnection, whose reset is sent whatever the device is doing.
    pub open spec fn orderly(self) -> bool {
        match self.activity.driver() {
            Driver::Nobody => true,
            Driver::Session => self.goal == Goal::Disconnect || crate::ops::disciplined(
                self.runner.ops,
            ),
            Driver::Distance => crate::ops::disciplined(self.distance.runner.ops)
                && self.distance.well_formed(),
            Driver::Presence => crate::ops::disciplined(self.presence.runner.ops),
            Driver::Breathing => crate::ops::disciplined(self.breathing.runner.ops),
        }
    }
}

/// The sequences that the session runs on its own account, the
/// disconnection apart, issue their commands under the discipline only.
pub proof fn lemma_session_sequences_are_disciplined(pins: XM125GpioPins, app: Application, code: u32, ms: u64)
    ensures
        crate::ops::disciplined(probe_script()),
        crate::ops::disciplined(hardware_reset_script(pins)),
        crate::ops::disciplined(pause_script(ms)),
        crate::ops::disciplined(info_script()),
        crate::ops::disciplined(application_id_script()),
        crate::ops::disciplined(command_script(app, code)),
{
}

/// The request that writes `value` to the command register.
pub open spec fn command_request(value: u32) -> Step {
    Step::Ask {
        request: crate::host::Request::WriteRegister { address: registers::REG_COMMAND, value },
    }
}

/// No sequence of the session begins with a write of the command register.
proof fn lemma_first_requests(state: RadarState, now_ms: u64, ms: u64, value: u32)
    ensures
        state.start_probe(now_ms).1 != command_request(value),
        state.start_hardware_reset(now_ms).1 != command_request(value),
        state.start_pause(ms, now_ms).1 != command_request(value),
        state.start_own(Activity::Finish, probe_script(), now_ms).1 != command_request(value),
        state.start_own(Activity::Finish, info_script(), now_ms).1 != command_request(value),
        state.start_own(
            Activity::Finish,
            command_script(
                application(state.config.detector_mode),
                registers::CMD_ENABLE_CONTINUOUS_MODE,
            ),
            now_ms,
        ).1 != command_request(value),
        state.start_configure_distance(now_ms).1 != command_request(value),
        state.start_calibrate_distance(now_ms).1 != command_request(value),
        state.start_recalibrate(now_ms).1 != command_request(value),
        state.start_measure_distance(now_ms).1 != command_request(value),
        state.start_configure_presence(now_ms).1 != command_request(value),
        state.start_apply_presence(now_ms).1 != command_request(value),
        state.start_measure_presence(now_ms).1 != command_request(value),
        state.start_configure_breathing(now_ms).1 != command_request(value),
        state.start_apply_breathing(now_ms).1 != command_request(value),
        state.start_measure_breathing(now_ms).1 != command_request(value),
{
    let reset = hardware_reset_script(state.gpio_pins);
    assert(reset[0] == Op::FreeBootPin { pin: state.gpio_pins.boot });
    let thresholds = state.presence_thresholds();
    assert(thresholds[0] == Op::Write {
        address: registers::PRESENCE_REG_START_ADDRESS,
        value: state.config.presence_start_mm(),
    });
}

/// Whatever the session begins, it begins orderly, and not with a write of
/// the command register.
pub proof fn lemma_starts_are_orderly(state: RadarState, now_ms: u64, ms: u64, value: u32)
    ensures
        state.start_probe(now_ms).0.orderly(),
        state.start_hardware_reset(now_ms).0.orderly(),
        state.start_pause(ms, now_ms).0.orderly(),
        state.start_own(Activity::Finish, probe_script(), now_ms).0.orderly(),
        state.start_own(Activity::Finish, info_script(), now_ms).0.orderly(),
        state.start_own(
            Activity::Finish,
            command_script(
                application(state.config.detector_mode),
                registers::CMD_ENABLE_CONTINUOUS_MODE,
            ),
            now_ms,
        ).0.orderly(),
        state.start_configure_distance(now_ms).0.orderly(),
        state.start_calibrate_distance(now_ms).0.orderly(),
        state.start_recalibrate(now_ms).0.orderly(),
        state.start_measure_distance(now_ms).0.orderly(),
        state.start_configure_presence(now_ms).0.orderly(),
        state.start_apply_presence(now_ms).0.orderly(),
        state.start_measure_presence(now_ms).0.orderly(),
        state.start_configure_breathing(now_ms).0.orderly(),
        state.start_apply_breathing(now_ms).0.orderly(),
        state.start_measure_breathing(now_ms).0.orderly(),
        state.start_probe(now_ms).1 != command_request(value),
        state.start_hardware_reset(now_ms).1 != command_request(value),
        state.start_pause(ms, now_ms).1 != command_request(value),
        state.start_own(Activity::Finish, probe_script(), now_ms).1 != command_request(value),
        state.start_own(Activity::Finish, info_script(), now_ms).1 != command_request(value),
        state.start_own(
            Activity::Finish,
            command_script(
                application(state.config.detector_mode),
                registers::CMD_ENABLE_CONTINUOUS_MODE,
            ),
            now_ms,
        ).1 != command_request(value),
        state.start_configure_distance(now_ms).1 != command_request(value),
        state.start_calibrate_distance(now_ms).1 != command_request(value),
        state.start_recalibrate(now_ms).1 != command_request(value),
        state.start_measure_distance(now_ms).1 != command_request(value),
        state.start_configure_presence(now_ms).1 != command_request(value),
        state.start_apply_presence(now_ms).1 != command_request(value),
        state.start_measure_presence(now_ms).1 != command_request(value),
        state.start_configure_breathing(now_ms).1 != command_request(value),
        state.start_apply_breathing(now_ms).1 != command_request(value),
        state.start_measure_breathing(now_ms).1 != command_request(value),
{
    lemma_session_sequences_are_disciplined(
        state.gpio_pins,
        application(state.config.detector_mode),
        registers::CMD_ENABLE_CONTINUOUS_MODE,
        ms,
    );
    crate::distance::lemma_measurement_is_disciplined(
        crate::distance::effective_start_mm(&state.config),
        crate::distance::effective_end_mm(&state.config),
    );
    crate::distance::lemma_configuration_is_disciplined(state.config);
    crate::presence::lemma_presence_is_disciplined(
        state.config.presence_start_mm(),
        state.config.presence_end_mm(),
    );
    crate::presence::lemma_thresholds_are_disciplined(
        state.config.intra_detection_threshold,
        state.config.inter_detection_threshold,
        state.config.frame_rate,
        crate::presence::spec_optimal_profile(state.config.presence_end_mm()),
        crate::presence::spec_optimal_step_length(state.config.presence_end_mm()),
        state.config.auto_profile_enabled,
        state.config.presence_start_mm(),
        state.config.presence_end_mm(),
    );
    crate::breathing::lemma_breathing_is_disciplined(state.config);
    lemma_first_requests(state, now_ms, ms, value);
}

#[verifier::rlimit(50)]
#[verifier::spinoff_prover]
proof fn lemma_next_after_probe(
    state: RadarState,
    outcome: Outcome,
    error: RadarError,
    now_ms: u64,
    value: u32,
)
    requires
        state.activity == Activity::Probe,
    ensures
        state.succeeded(outcome, now_ms).0.orderly(),
        state.failed(error, now_ms).0.orderly(),
        state.succeeded(outcome, now_ms).1 != command_request(value),
        state.failed(error, now_ms).1 != command_request(value),
{
    let connected = RadarState { is_connected: true, ..state };
    let bumped = RadarState {
        attempt: if state.attempt < u32::MAX {
            (state.attempt + 1) as u32
        } else {
            state.attempt
        },
        ..state
    };
    let calibrated = RadarState { is_calibrated: true, last_calibration: Some(now_ms), ..state };
    let measured = RadarState { last_measurement: Some(now_ms), ..state };
    let emptied = RadarState { combined_distance: None, ..state };
    let pauses = registers::BOOT_WAIT_MS;
    let delays = registers::CONNECT_RETRY_DELAY_MS;
    lemma_starts_are_orderly(state, now_ms, pauses, value);
    lemma_starts_are_orderly(state, now_ms, delays, value);
    lemma_starts_are_orderly(connected, now_ms, pauses, value);
    lemma_starts_are_orderly(bumped, now_ms, pauses, value);
    lemma_starts_are_orderly(calibrated, now_ms, pauses, value);
    lemma_starts_are_orderly(RadarState { combined_distance: None, ..calibrated }, now_ms, pauses, value);
    lemma_starts_are_orderly(emptied, now_ms, pauses, value);
    match outcome {
        Outcome::Distance { distance } => {
            lemma_starts_are_orderly(
                RadarState { combined_distance: Some(distance), ..measured },
                now_ms,
                pauses,
                value,
            );
        },
        _ => {},
    }
}

#[verifier::rlimit(50)]
#[verifier::spinoff_prover]
proof fn lemma_next_after_reset(
    state: RadarState,
    outcome: Outcome,
    error: RadarError,
    now_ms: u64,
    value: u32,
)
    requires
        state.activity == Activity::HardwareReset || state.activity == Activity::Pause,
    ensures
        state.succeeded(outcome, now_ms).0.orderly(),
        state.failed(error, now_ms).0.orderly(),
        state.succeeded(outcome, now_ms).1 != command_request(value),
        state.failed(error, now_ms).1 != command_request(value),
{
    let connected = RadarState { is_connected: true, ..state };
    let bumped = RadarState {
        attempt: if state.attempt < u32::MAX {
            (state.attempt + 1) as u32
        } else {
            state.attempt
        },
        ..state
    };
    let calibrated = RadarState { is_calibrated: true, last_calibration: Some(now_ms), ..state };
    let measured = RadarState { last_measurement: Some(now_ms), ..state };
    let emptied = RadarState { combined_distance: None, ..state };
    let pauses = registers::BOOT_WAIT_MS;
    let delays = registers::CONNECT_RETRY_DELAY_MS;
    lemma_starts_are_orderly(state, now_ms, pauses, value);
    lemma_starts_are_orderly(state, now_ms, delays, value);
    lemma_starts_are_orderly(connected, now_ms, pauses, value);
    lemma_starts_are_orderly(bumped, now_ms, pauses, value);
    lemma_starts_are_orderly(calibrated, now_ms, pauses, value);
    lemma_starts_are_orderly(RadarState { combined_distance: None, ..calibrated }, now_ms, pauses, value);
    lemma_starts_are_orderly(emptied, now_ms, pauses, value);
    match outcome {
        Outcome::Distance { distance } => {
            lemma_starts_are_orderly(
                RadarState { combined_distance: Some(distance), ..measured },
                now_ms,
                pauses,
                value,
            );
        },
        _ => {},
    }
}

#[verifier::rlimit(50)]
#[verifier::spinoff_prover]
proof fn lemma_next_after_distance_setup(
    state: RadarState,
    outcome: Outcome,
    error: RadarError,
    now_ms: u64,
    value: u32,
)
    requires
        state.activity == Activity::ConfigureDistance || state.activity == Activity::CalibrateDistance,
    ensures
        state.succeeded(outcome, now_ms).0.orderly(),
        state.failed(error, now_ms).0.orderly(),
        state.succeeded(outcome, now_ms).1 != command_request(value),
        state.failed(error, now_ms).1 != command_request(value),
{
    let connected = RadarState { is_connected: true, ..state };
    let bumped = RadarState {
        attempt: if state.attempt < u32::MAX {
            (state.attempt + 1) as u32
        } else {
            state.attempt
        },
        ..state
    };
    let calibrated = RadarState { is_calibrated: true, last_calibration: Some(now_ms), ..state };
    let measured = RadarState { last_measurement: Some(now_ms), ..state };
    let emptied = RadarState { combined_distance: None, ..state };
    let pauses = registers::BOOT_WAIT_MS;
    let delays = registers::CONNECT_RETRY_DELAY_MS;
    lemma_starts_are_orderly(state, now_ms, pauses, value);
    lemma_starts_are_orderly(state, now_ms, delays, value);
    lemma_starts_are_orderly(connected, now_ms, pauses, value);
    lemma_starts_are_orderly(bumped, now_ms, pauses, value);
    lemma_starts_are_orderly(calibrated, now_ms, pauses, value);
    lemma_starts_are_orderly(RadarState { combined_distance: None, ..calibrated }, now_ms, pauses, value);
    lemma_starts_are_orderly(emptied, now_ms, pauses, value);
    match outcome {
        Outcome::Distance { distance } => {
            lemma_starts_are_orderly(
                RadarState { combined_distance: Some(distance), ..measured },
                now_ms,
                pauses,
                value,
            );
        },
        _ => {},
    }
}

#[verifier::rlimit(50)]
#[verifier::spinoff_prover]
proof fn lemma_next_after_other_setup(
    state: RadarState,
    outcome: Outcome,
    error: RadarError,
    now_ms: u64,
    value: u32,
)
    requires
        state.activity == Activity::ConfigurePresence || state.activity == Activity::ApplyPresence || state.activity == Activity::ConfigureBreathing || state.activity == Activity::ApplyBreathing,
    ensures
        state.succeeded(outcome, now_ms).0.orderly(),
        state.failed(error, now_ms).0.orderly(),
        state.succeeded(outcome, now_ms).1 != command_request(value),
        state.failed(error, now_ms).1 != command_request(value),
{
    let connected = RadarState { is_connected: true, ..state };
    let bumped = RadarState {
        attempt: if state.attempt < u32::MAX {
            (state.attempt + 1) as u32
        } else {
            state.attempt
        },
        ..state
    };
    let calibrated = RadarState { is_calibrated: true, last_calibration: Some(now_ms), ..state };
    let measured = RadarState { last_measurement: Some(now_ms), ..state };
    let emptied = RadarState { combined_distance: None, ..state };
    let pauses = registers::BOOT_WAIT_MS;
    let delays = registers::CONNECT_RETRY_DELAY_MS;
    lemma_starts_are_orderly(state, now_ms, pauses, value);
    lemma_starts_are_orderly(state, now_ms, delays, value);
    lemma_starts_are_orderly(connected, now_ms, pauses, value);
    lemma_starts_are_orderly(bumped, now_ms, pauses, value);
    lemma_starts_are_orderly(calibrated, now_ms, pauses, value);
    lemma_starts_are_orderly(RadarState { combined_distance: None, ..calibrated }, now_ms, pauses, value);
    lemma_starts_are_orderly(emptied, now_ms, pauses, value);
    match outcome {
        Outcome::Distance { distance } => {
            lemma_starts_are_orderly(
                RadarState { combined_distance: Some(distance), ..measured },
                now_ms,
                pauses,
                value,
            );
        },
        _ => {},
    }
}

#[verifier::rlimit(50)]
#[verifier::spinoff_prover]
proof fn lemma_next_after_distance(
    state: RadarState,
    outcome: Outcome,
    error: RadarError,
    now_ms: u64,
    value: u32,
)
    requires
        state.activity == Activity::Recalibrate || state.activity == Activity::MeasureDistance,
    ensures
        state.succeeded(outcome, now_ms).0.orderly(),
        state.failed(error, now_ms).0.orderly(),
        state.succeeded(outcome, now_ms).1 != command_request(value),
        state.failed(error, now_ms).1 != command_request(value),
{
    let connected = RadarState { is_connected: true, ..state };
    let bumped = RadarState {
        attempt: if state.attempt < u32::MAX {
            (state.attempt + 1) as u32
        } else {
            state.attempt
        },
        ..state
    };
    let calibrated = RadarState { is_calibrated: true, last_calibration: Some(now_ms), ..state };
    let measured = RadarState { last_measurement: Some(now_ms), ..state };
    let emptied = RadarState { combined_distance: None, ..state };
    let pauses = registers::BOOT_WAIT_MS;
    let delays = registers::CONNECT_RETRY_DELAY_MS;
    lemma_starts_are_orderly(state, now_ms, pauses, value);
    lemma_starts_are_orderly(state, now_ms, delays, value);
    lemma_starts_are_orderly(connected, now_ms, pauses, value);
    lemma_starts_are_orderly(bumped, now_ms, pauses, value);
    lemma_starts_are_orderly(calibrated, now_ms, pauses, value);
    lemma_starts_are_orderly(RadarState { combined_distance: None, ..calibrated }, now_ms, pauses, value);
    lemma_starts_are_orderly(emptied, now_ms, pauses, value);
    match outcome {
        Outcome::Distance { distance } => {
            lemma_starts_are_orderly(
                RadarState { combined_distance: Some(distance), ..measured },
                now_ms,
                pauses,
                value,
            );
        },
        _ => {},
    }
}

#[verifier::rlimit(50)]
#[verifier::spinoff_prover]
proof fn lemma_next_after_rest(
    state: RadarState,
    outcome: Outcome,
    error: RadarError,
    now_ms: u64,
    value: u32,
)
    requires
        state.activity == Activity::MeasurePresence || state.activity == Activity::MeasureBreathing || state.activity == Activity::PresenceControl || state.activity == Activity::Finish || state.activity == Activity::Idle,
    ensures
        state.succeeded(outcome, now_ms).0.orderly(),
        state.failed(error, now_ms).0.orderly(),
        state.succeeded(outcome, now_ms).1 != command_request(value),
        state.failed(error, now_ms).1 != command_request(value),
{
    let connected = RadarState { is_connected: true, ..state };
    let bumped = RadarState {
        attempt: if state.attempt < u32::MAX {
            (state.attempt + 1) as u32
        } else {
            state.attempt
        },
        ..state
    };
    let calibrated = RadarState { is_calibrated: true, last_calibration: Some(now_ms), ..state };
    let measured = RadarState { last_measurement: Some(now_ms), ..state };
    let emptied = RadarState { combined_distance: None, ..state };
    let pauses = registers::BOOT_WAIT_MS;
    let delays = registers::CONNECT_RETRY_DELAY_MS;
    lemma_starts_are_orderly(state, now_ms, pauses, value);
    lemma_starts_are_orderly(state, now_ms, delays, value);
    lemma_starts_are_orderly(connected, now_ms, pauses, value);
    lemma_starts_are_orderly(bumped, now_ms, pauses, value);
    lemma_starts_are_orderly(calibrated, now_ms, pauses, value);
    lemma_starts_are_orderly(RadarState { combined_distance: None, ..calibrated }, now_ms, pauses, value);
    lemma_starts_are_orderly(emptied, now_ms, pauses, value);
    match outcome {
        Outcome::Distance { distance } => {
            lemma_starts_are_orderly(
                RadarState { combined_distance: Some(distance), ..measured },
                now_ms,
                pauses,
                value,
            );
        },
        _ => {},
    }
}

/// Whatever follows the end of an activity is orderly, and does not begin
/// with a write of the command register.
pub proof fn lemma_next_activity_is_orderly(
    state: RadarState,
    outcome: Outcome,
    error: RadarError,
    now_ms: u64,
    value: u32,
)
    ensures
        state.succeeded(outcome, now_ms).0.orderly(),
        state.failed(error, now_ms).0.orderly(),
        state.succeeded(outcome, now_ms).1 != command_request(value),
        state.failed(error, now_ms).1 != command_request(value),
{
    match state.activity {
        Activity::Probe => lemma_next_after_probe(state, outcome, error, now_ms, value),
        Activity::HardwareReset | Activity::Pause => lemma_next_after_reset(
            state,
            outcome,
            error,
            now_ms,
            value,
        ),
        Activity::ConfigureDistance | Activity::CalibrateDistance => lemma_next_after_distance_setup(
            state,
            outcome,
            error,
            now_ms,
            value,
        ),
        Activity::ConfigurePresence | Activity::ApplyPresence | Activity::ConfigureBreathing
        | Activity::ApplyBreathing => lemma_next_after_other_setup(
            state,
            outcome,
            error,
            now_ms,
            value,
        ),
        Activity::Recalibrate | Activity::MeasureDistance => lemma_next_after_distance(
            state,
            outcome,
            error,
            now_ms,
            value,
        ),
        _ => lemma_next_after_rest(state, outcome, error, now_ms, value),
    }
}

/// An orderly session stays orderly.
#[verifier::rlimit(50)]
#[verifier::spinoff_prover]
pub proof fn lemma_resume_keeps_orderly(state: RadarState, now_ms: u64, reply: Reply)
    requires
        state.orderly(),
    ensures
        state.resume(now_ms, reply).0.orderly(),
{
    match state.activity.driver() {
        Driver::Nobody => {},
        Driver::Session => {
            let (runner, progress) = state.runner.resume(now_ms, reply);
            let next = RadarState { runner, ..state };
            match progress {
                Progress::Ask { .. } => {},
                Progress::Complete => {
                    lemma_next_activity_is_orderly(next, Outcome::Done, RadarError::Bus, now_ms, 0);
                },
                Progress::Failed { error } => {
                    lemma_next_activity_is_orderly(next, Outcome::Done, error, now_ms, 0);
                },
            }
        },
        Driver::Distance => {
            crate::distance::lemma_resume_keeps_well_formed(state.distance, now_ms, reply);
            crate::distance::lemma_measurement_is_disciplined(
                state.distance.start_mm,
                state.distance.end_mm,
            );
            let (distance, step) = state.distance.resume(now_ms, reply);
            let next = RadarState { distance, ..state };
            match step {
                Step::Ask { .. } => {},
                Step::Finished { outcome } => {
                    lemma_next_activity_is_orderly(next, outcome, RadarError::Bus, now_ms, 0);
                },
                Step::Failed { error } => {
                    lemma_next_activity_is_orderly(next, Outcome::Done, error, now_ms, 0);
                },
            }
        },
        Driver::Presence => {
            let (presence, step) = state.presence.resume(now_ms, reply);
            let next = RadarState { presence, ..state };
            match step {
                Step::Ask { .. } => {},
                Step::Finished { outcome } => {
                    lemma_next_activity_is_orderly(next, outcome, RadarError::Bus, now_ms, 0);
                },
                Step::Failed { error } => {
                    lemma_next_activity_is_orderly(next, Outcome::Done, error, now_ms, 0);
                },
            }
        },
        Driver::Breathing => {
            let (breathing, step) = state.breathing.resume(now_ms, reply);
            let next = RadarState { breathing, ..state };
            match step {
                Step::Ask { .. } => {},
                Step::Finished { outcome } => {
                    lemma_next_activity_is_orderly(next, outcome, RadarError::Bus, now_ms, 0);
                },
                Step::Failed { error } => {
                    lemma_next_activity_is_orderly(next, Outcome::Done, error, now_ms, 0);
                },
            }
        },
    }
}

/// The session never issues a command to a busy device. Whatever an
/// orderly session writes to the command register, the measure command
/// included, it writes in answer to a status word whose busy bit is clear.
/// The one exception is the reset that a disconnection sends.
#[verifier::rlimit(50)]
#[verifier::spinoff_prover]
pub proof fn lemma_session_commands_wait_for_idle(
    state: RadarState,
    now_ms: u64,
    reply: Reply,
    value: u32,
)
    requires
        state.orderly(),
        state.goal != Goal::Disconnect,
        state.resume(now_ms, reply).1 == command_request(value),
    ensures
        reply matches Reply::Word { value: status } && !registers::status_busy(status),
{
    match state.activity.driver() {
        Driver::Nobody => {},
        Driver::Session => {
            let (runner, progress) = state.runner.resume(now_ms, reply);
            let next = RadarState { runner, ..state };
            match progress {
                Progress::Ask { .. } => {
                    crate::runner::lemma_commands_wait_for_idle(state.runner, now_ms, reply, value);
                },
                Progress::Complete => {
                    lemma_next_activity_is_orderly(next, Outcome::Done, RadarError::Bus, now_ms, value);
                },
                Progress::Failed { error } => {
                    lemma_next_activity_is_orderly(next, Outcome::Done, error, now_ms, value);
                },
            }
        },
        Driver::Distance => {
            let (distance, step) = state.distance.resume(now_ms, reply);
            let next = RadarState { distance, ..state };
            match step {
                Step::Ask { .. } => {
                    crate::distance::lemma_detector_commands_wait_for_idle(
                        state.distance,
                        now_ms,
                        reply,
                        value,
                    );
                },
                Step::Finished { outcome } => {
                    lemma_next_activity_is_orderly(next, outcome, RadarError::Bus, now_ms, value);
                },
                Step::Failed { error } => {
                    lemma_next_activity_is_orderly(next, Outcome::Done, error, now_ms, value);
                },
            }
        },
        Driver::Presence => {
            let (presence, step) = state.presence.resume(now_ms, reply);
            let next = RadarState { presence, ..state };
            match step {
                Step::Ask { .. } => {
                    crate::runner::lemma_commands_wait_for_idle(
                        state.presence.runner,
                        now_ms,
                        reply,
                        value,
                    );
                },
                Step::Finished { outcome } => {
                    lemma_next_activity_is_orderly(next, outcome, RadarError::Bus, now_ms, value);
                },
                Step::Failed { error } => {
                    lemma_next_activity_is_orderly(next, Outcome::Done, error, now_ms, value);
                },
            }
        },
        Driver::Breathing => {
            let (breathing, step) = state.breathing.resume(now_ms, reply);
            let next = RadarState { breathing, ..state };
            match step {
                Step::Ask { .. } => {
                    crate::runner::lemma_commands_wait_for_idle(
                        state.breathing.runner,
                        now_ms,
                        reply,
                        value,
                    );
                },
                Step::Finished { outcome } => {
                    lemma_next_activity_is_orderly(next, outcome, RadarError::Bus, now_ms, value);
                },
                Step::Failed { error } => {
                    lemma_next_activity_is_orderly(next, Outcome::Done, error, now_ms, value);
                },
            }
        },
    }
}

/// Every goal begins orderly, whatever the session was doing before.
#[verifier::rlimit(50)]
#[verifier::spinoff_prover]
pub proof fn lemma_goals_begin_orderly(state: RadarState, mode: DetectorMode, now_ms: u64)
    ensures
        state.connect(now_ms).0.orderly(),
        state.connect_async(now_ms).0.orderly(),
        state.auto_connect(now_ms).0.orderly(),
        state.disconnect(now_ms).0.orderly() || !state.is_connected,
        state.calibrate(now_ms).0.orderly(),
        state.read_application_id(now_ms).0.orderly(),
        state.begin_connected(Goal::MeasureDistance, now_ms).0.orderly(),
        state.begin_connected(Goal::MeasurePresence, now_ms).0.orderly(),
        state.begin_connected(Goal::MeasureBreathing, now_ms).0.orderly(),
        state.begin_connected(Goal::MeasureCombined, now_ms).0.orderly(),
        state.begin_connected(Goal::StartContinuous, now_ms).0.orderly(),
        state.is_connected && state.config.detector_mode != mode ==> state.set_detector_mode(
            mode,
            now_ms,
        ).0.orderly(),
        state.configure_presence_detector(now_ms).0.orderly(),
        state.configure_distance_detector(now_ms).0.orderly(),
        state.start_presence_control(crate::presence::start_script(), now_ms).0.orderly(),
        state.start_presence_control(crate::presence::stop_script(), now_ms).0.orderly(),
{
    lemma_starts_are_orderly(RadarState { goal: Goal::Connect, attempt: 1, ..state }, now_ms, 0, 0);
    lemma_starts_are_orderly(
        RadarState { goal: Goal::ConnectAsync, attempt: 1, ..state },
        now_ms,
        0,
        0,
    );
    lemma_starts_are_orderly(
        RadarState { goal: Goal::AutoConnect, attempt: 1, ..state },
        now_ms,
        0,
        0,
    );
    lemma_starts_are_orderly(state.with_goal(Goal::Calibrate), now_ms, 0, 0);
    lemma_session_sequences_are_disciplined(state.gpio_pins, Application::Distance, 0, 0);
    lemma_goal_begins_orderly(state, Goal::MeasureDistance, now_ms);
    lemma_goal_begins_orderly(state, Goal::MeasurePresence, now_ms);
    lemma_goal_begins_orderly(state, Goal::MeasureBreathing, now_ms);
    lemma_goal_begins_orderly(state, Goal::MeasureCombined, now_ms);
    lemma_goal_begins_orderly(state, Goal::StartContinuous, now_ms);
    lemma_starts_are_orderly(state.with_mode(mode).with_goal(Goal::Configure), now_ms, 0, 0);
    lemma_starts_are_orderly(
        state.with_mode(DetectorMode::Presence).with_goal(Goal::Configure),
        now_ms,
        0,
        0,
    );
    lemma_starts_are_orderly(
        state.with_mode(DetectorMode::Distance).with_goal(Goal::Configure),
        now_ms,
        0,
        0,
    );
    crate::presence::lemma_presence_is_disciplined(0, 0);
}

/// A goal that needs a connection begins orderly.
proof fn lemma_goal_begins_orderly(state: RadarState, goal: Goal, now_ms: u64)
    ensures
        state.begin_connected(goal, now_ms).0.orderly(),
{
    let begun = RadarState { goal, ..state };
    lemma_starts_are_orderly(begun, now_ms, 0, 0);
    lemma_starts_are_orderly(RadarState { attempt: 1, ..begun }, now_ms, 0, 0);
    lemma_starts_are_orderly(RadarState { combined_distance: None, ..begun }, now_ms, 0, 0);
}

} // verus!
