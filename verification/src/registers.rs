//! Register map of the XM125 I2C register protocol.
//!
//! Addresses, command codes, status masks, documented defaults and the
//! hardware timing constants. The three detector applications (distance,
//! presence, breathing) each have their own layout above the common header,
//! and their status words assign different meanings to the same bit
//! positions, so every application has its own mask table.

use vstd::prelude::*;

verus! {

// ---------------------------------------------------------------------------
// Registers common to every application
// ---------------------------------------------------------------------------
pub const REG_VERSION: u16 = 0;

pub const REG_PROTOCOL_STATUS: u16 = 1;

pub const REG_MEASURE_COUNTER: u16 = 2;

pub const REG_DETECTOR_STATUS: u16 = 3;

/// The command register; every application places it at the same address.
pub const REG_COMMAND: u16 = 256;

/// The application id register sits at the top of the address space.
pub const REG_APPLICATION_ID: u16 = 65535;

/// Sensor information is read from the version register.
pub const REG_SENSOR_INFO: u16 = 0;

// ---------------------------------------------------------------------------
// Distance detector
// ---------------------------------------------------------------------------
pub const REG_DISTANCE_RESULT: u16 = 16;

pub const REG_PEAK0_DISTANCE: u16 = 17;

pub const REG_PEAK0_STRENGTH: u16 = 27;

pub const REG_START_CONFIG: u16 = 64;

pub const REG_END_CONFIG: u16 = 65;

pub const REG_MAX_STEP_LENGTH: u16 = 66;

pub const REG_CLOSE_RANGE_LEAKAGE_CANCELLATION: u16 = 67;

pub const REG_SIGNAL_QUALITY: u16 = 68;

pub const REG_MAX_PROFILE: u16 = 69;

pub const REG_THRESHOLD_METHOD: u16 = 70;

pub const REG_PEAK_SORTING: u16 = 71;

pub const REG_NUM_FRAMES_RECORDED_THRESHOLD: u16 = 72;

pub const REG_FIXED_AMPLITUDE_THRESHOLD_VALUE: u16 = 73;

pub const REG_THRESHOLD_SENSITIVITY: u16 = 74;

pub const REG_REFLECTOR_SHAPE: u16 = 75;

pub const REG_FIXED_STRENGTH_THRESHOLD_VALUE: u16 = 76;

pub const CMD_APPLY_CONFIG_AND_CALIBRATE: u32 = 1;

pub const CMD_MEASURE_DISTANCE: u32 = 2;

pub const CMD_APPLY_CONFIGURATION: u32 = 3;

pub const CMD_CALIBRATE: u32 = 4;

pub const CMD_RECALIBRATE: u32 = 5;

/// Reset-module is the ASCII text "RST!": a sentinel that no sequentially
/// numbered command can collide with.
pub const CMD_RESET_MODULE: u32 = 0x5253_5421;

/// Disabling a detector is a module reset.
pub const CMD_DISABLE_DETECTOR: u32 = 0x5253_5421;

/// Continuous mode is entered with apply-configuration.
pub const CMD_ENABLE_CONTINUOUS_MODE: u32 = 3;

/// Continuous mode is left with a module reset.
pub const CMD_DISABLE_CONTINUOUS_MODE: u32 = 0x5253_5421;

pub const STATUS_DISTANCE_RSS_REGISTER_OK: u32 = 0x0000_0001;

pub const STATUS_DISTANCE_CONFIG_CREATE_OK: u32 = 0x0000_0002;

pub const STATUS_DISTANCE_SENSOR_CREATE_OK: u32 = 0x0000_0004;

pub const STATUS_DISTANCE_DETECTOR_CREATE_OK: u32 = 0x0000_0008;

pub const STATUS_DISTANCE_DETECTOR_BUFFER_OK: u32 = 0x0000_0010;

pub const STATUS_DISTANCE_SENSOR_BUFFER_OK: u32 = 0x0000_0020;

pub const STATUS_DISTANCE_CALIBRATION_BUFFER_OK: u32 = 0x0000_0040;

pub const STATUS_DISTANCE_CONFIG_APPLY_OK: u32 = 0x0000_0080;

pub const STATUS_DISTANCE_SENSOR_CALIBRATE_OK: u32 = 0x0000_0100;

pub const STATUS_DISTANCE_DETECTOR_CALIBRATE_OK: u32 = 0x0000_0200;

pub const STATUS_DISTANCE_RSS_REGISTER_ERROR: u32 = 0x0001_0000;

pub const STATUS_DISTANCE_CONFIG_CREATE_ERROR: u32 = 0x0002_0000;

pub const STATUS_DISTANCE_SENSOR_CREATE_ERROR: u32 = 0x0004_0000;

pub const STATUS_DISTANCE_DETECTOR_CREATE_ERROR: u32 = 0x0008_0000;

pub const STATUS_DISTANCE_DETECTOR_BUFFER_ERROR: u32 = 0x0010_0000;

pub const STATUS_DISTANCE_SENSOR_BUFFER_ERROR: u32 = 0x0020_0000;

pub const STATUS_DISTANCE_CALIBRATION_BUFFER_ERROR: u32 = 0x0040_0000;

pub const STATUS_DISTANCE_CONFIG_APPLY_ERROR: u32 = 0x0080_0000;

pub const STATUS_DISTANCE_SENSOR_CALIBRATE_ERROR: u32 = 0x0100_0000;

pub const STATUS_DISTANCE_DETECTOR_CALIBRATE_ERROR: u32 = 0x0200_0000;

pub const STATUS_DISTANCE_DETECTOR_ERROR: u32 = 0x1000_0000;

pub const STATUS_DISTANCE_BUSY: u32 = 0x8000_0000;

/// Every error bit of the distance status word, bits 16 to 25 and bit 28.
pub const STATUS_DISTANCE_ALL_ERROR_MASK: u32 = 0x13FF_0000;

/// Set once a distance measurement can be read. It is not one of the
/// calibration bits.
pub const STATUS_MEASUREMENT_READY: u32 = 0x0000_0004;

pub const DISTANCE_START_DEFAULT: u32 = 100;

pub const DISTANCE_END_DEFAULT: u32 = 3000;

pub const DISTANCE_MAX_STEP_LENGTH_DEFAULT: u32 = 0;

pub const DISTANCE_CLOSE_RANGE_LEAKAGE_CANCELLATION_DEFAULT: u32 = 1;

pub const DISTANCE_SIGNAL_QUALITY_DEFAULT: u32 = 15000;

pub const DISTANCE_MAX_PROFILE_DEFAULT: u32 = 5;

pub const DISTANCE_THRESHOLD_METHOD_DEFAULT: u32 = 0;

pub const DISTANCE_PEAK_SORTING_DEFAULT: u32 = 0;

pub const DISTANCE_NUM_FRAMES_RECORDED_THRESHOLD_DEFAULT: u32 = 100;

pub const DISTANCE_FIXED_AMPLITUDE_THRESHOLD_VALUE_DEFAULT: u32 = 100000;

pub const DISTANCE_THRESHOLD_SENSITIVITY_DEFAULT: u32 = 100;

pub const DISTANCE_REFLECTOR_SHAPE_DEFAULT: u32 = 0;

pub const DISTANCE_FIXED_STRENGTH_THRESHOLD_VALUE_DEFAULT: u32 = 0;

// ---------------------------------------------------------------------------
// Presence detector
// ---------------------------------------------------------------------------
pub const PRESENCE_REG_DETECTOR_STATUS_ADDRESS: u16 = 3;

pub const REG_PRESENCE_RESULT: u16 = 16;

pub const REG_PRESENCE_DISTANCE: u16 = 17;

pub const REG_INTRA_PRESENCE_SCORE: u16 = 18;

pub const REG_INTER_PRESENCE_SCORE: u16 = 19;

pub const PRESENCE_REG_FRAME_RATE_ADDRESS: u16 = 69;

pub const PRESENCE_REG_INTRA_DETECTION_THRESHOLD_ADDRESS: u16 = 70;

pub const PRESENCE_REG_INTER_DETECTION_THRESHOLD_ADDRESS: u16 = 71;

pub const PRESENCE_REG_AUTO_PROFILE_ADDRESS: u16 = 78;

pub const PRESENCE_REG_AUTO_STEP_LENGTH_ADDRESS: u16 = 79;

pub const PRESENCE_REG_MANUAL_PROFILE_ADDRESS: u16 = 80;

pub const PRESENCE_REG_MANUAL_STEP_LENGTH_ADDRESS: u16 = 81;

pub const PRESENCE_REG_START_ADDRESS: u16 = 82;

pub const PRESENCE_REG_END_ADDRESS: u16 = 83;

pub const PRESENCE_REG_HWAAS_ADDRESS: u16 = 85;

pub const PRESENCE_REG_AUTO_SUBSWEEPS_ADDRESS: u16 = 86;

pub const PRESENCE_REG_SIGNAL_QUALITY_ADDRESS: u16 = 87;

pub const PRESENCE_REG_COMMAND_ADDRESS: u16 = 256;

pub const CMD_PRESENCE_APPLY_CONFIGURATION: u32 = 1;

pub const CMD_PRESENCE_START_DETECTOR: u32 = 2;

pub const CMD_PRESENCE_STOP_DETECTOR: u32 = 3;

pub const CMD_PRESENCE_RESET_MODULE: u32 = 0x5253_5421;

pub const STATUS_PRESENCE_RSS_REGISTER_OK: u32 = 0x0000_0001;

pub const STATUS_PRESENCE_CONFIG_CREATE_OK: u32 = 0x0000_0002;

pub const STATUS_PRESENCE_SENSOR_CREATE_OK: u32 = 0x0000_0004;

pub const STATUS_PRESENCE_SENSOR_CALIBRATE_OK: u32 = 0x0000_0008;

pub const STATUS_PRESENCE_DETECTOR_CREATE_OK: u32 = 0x0000_0010;

pub const STATUS_PRESENCE_DETECTOR_BUFFER_OK: u32 = 0x0000_0020;

pub const STATUS_PRESENCE_SENSOR_BUFFER_OK: u32 = 0x0000_0040;

pub const STATUS_PRESENCE_CONFIG_APPLY_OK: u32 = 0x0000_0080;

pub const STATUS_PRESENCE_RSS_REGISTER_ERROR: u32 = 0x0001_0000;

pub const STATUS_PRESENCE_CONFIG_CREATE_ERROR: u32 = 0x0002_0000;

pub const STATUS_PRESENCE_SENSOR_CREATE_ERROR: u32 = 0x0004_0000;

pub const STATUS_PRESENCE_SENSOR_CALIBRATE_ERROR: u32 = 0x0008_0000;

pub const STATUS_PRESENCE_DETECTOR_CREATE_ERROR: u32 = 0x0010_0000;

pub const STATUS_PRESENCE_DETECTOR_BUFFER_ERROR: u32 = 0x0020_0000;

pub const STATUS_PRESENCE_SENSOR_BUFFER_ERROR: u32 = 0x0040_0000;

pub const STATUS_PRESENCE_CONFIG_APPLY_ERROR: u32 = 0x0080_0000;

pub const STATUS_PRESENCE_DETECTOR_ERROR: u32 = 0x1000_0000;

pub const STATUS_PRESENCE_BUSY: u32 = 0x8000_0000;

/// Every error bit of the presence status word, bits 16 to 23 and bit 28.
pub const STATUS_PRESENCE_ALL_ERROR_MASK: u32 = 0x10FF_0000;

/// Bit 0 of the presence result word: presence detected.
pub const PRESENCE_RESULT_DETECTED: u32 = 0x0000_0001;

/// Bit 1 of the presence result word: presence detected since the last read.
pub const PRESENCE_RESULT_DETECTED_STICKY: u32 = 0x0000_0002;

/// Bit 15 of the presence result word: the detector failed.
pub const PRESENCE_RESULT_DETECTOR_ERROR: u32 = 0x0000_8000;

pub const PRESENCE_HWAAS_DEFAULT: u32 = 32;

pub const PRESENCE_SIGNAL_QUALITY_DEFAULT: u32 = 20000;

/// Smallest step length the presence detector is given.
pub const PRESENCE_STEP_LENGTH_MIN: u32 = 12;

/// Largest step length the presence detector is given.
pub const PRESENCE_STEP_LENGTH_MAX: u32 = 120;

// ---------------------------------------------------------------------------
// Breathing reference application
// ---------------------------------------------------------------------------
pub const REG_BREATHING_RESULT: u16 = 16;

pub const REG_BREATHING_RATE: u16 = 17;

pub const REG_BREATHING_APP_STATE: u16 = 18;

pub const REG_BREATHING_START: u16 = 64;

pub const REG_BREATHING_END: u16 = 65;

pub const REG_BREATHING_NUM_DISTANCES_TO_ANALYZE: u16 = 66;

pub const REG_BREATHING_DISTANCE_DETERMINATION_DURATION_S: u16 = 67;

pub const REG_BREATHING_USE_PRESENCE_PROCESSOR: u16 = 68;

pub const REG_BREATHING_LOWEST_BREATHING_RATE: u16 = 69;

pub const REG_BREATHING_HIGHEST_BREATHING_RATE: u16 = 70;

pub const REG_BREATHING_TIME_SERIES_LENGTH_S: u16 = 71;

pub const REG_BREATHING_FRAME_RATE: u16 = 72;

pub const REG_BREATHING_SWEEPS_PER_FRAME: u16 = 73;

pub const REG_BREATHING_HWAAS: u16 = 74;

pub const REG_BREATHING_PROFILE: u16 = 75;

pub const REG_BREATHING_INTRA_DETECTION_THRESHOLD: u16 = 76;

pub const CMD_BREATHING_APPLY_CONFIGURATION: u32 = 1;

pub const CMD_BREATHING_START_APP: u32 = 2;

pub const CMD_BREATHING_STOP_APP: u32 = 3;

/// The breathing application reports one error bit.
pub const STATUS_BREATHING_ERROR: u32 = 0x1000_0000;

pub const STATUS_BREATHING_BUSY: u32 = 0x8000_0000;

/// Bit 0 of the breathing result word: a new rate estimate is ready.
pub const BREATHING_RESULT_READY: u32 = 0x0000_0001;

/// Bit 1 of the breathing result word: an estimate arrived since the last read.
pub const BREATHING_RESULT_READY_STICKY: u32 = 0x0000_0002;

pub const BREATHING_START_DEFAULT: u32 = 300;

pub const BREATHING_END_DEFAULT: u32 = 1500;

pub const BREATHING_NUM_DISTANCES_TO_ANALYZE_DEFAULT: u32 = 3;

pub const BREATHING_DISTANCE_DETERMINATION_DURATION_S_DEFAULT: u32 = 5;

pub const BREATHING_USE_PRESENCE_PROCESSOR_DEFAULT: u32 = 1;

pub const BREATHING_LOWEST_BREATHING_RATE_DEFAULT: u32 = 6;

pub const BREATHING_HIGHEST_BREATHING_RATE_DEFAULT: u32 = 60;

pub const BREATHING_TIME_SERIES_LENGTH_S_DEFAULT: u32 = 20;

pub const BREATHING_FRAME_RATE_DEFAULT: u32 = 10000;

pub const BREATHING_SWEEPS_PER_FRAME_DEFAULT: u32 = 16;

pub const BREATHING_HWAAS_DEFAULT: u32 = 32;

pub const BREATHING_PROFILE_DEFAULT: u32 = 3;

pub const BREATHING_INTRA_DETECTION_THRESHOLD_DEFAULT: u32 = 6000;

// ---------------------------------------------------------------------------
// Hardware timing, in milliseconds
//
// These encode how long the module's MCU needs; they are not tunable.
// Shortening any of them reproduces failures seen on real hardware.
// ---------------------------------------------------------------------------
/// Settle time after every bus transaction: the sensor MCU needs it between
/// I2C operations, or reads come back corrupted now and then.
pub const BUS_SETTLE_MS: u64 = 1;

/// Pause between a register write and the read that follows it in a
/// write-then-read exchange.
pub const WRITE_READ_GAP_MS: u64 = 5;

/// Deadline of the poll that follows apply-config-and-calibrate.
pub const CALIBRATION_TIMEOUT_MS: u64 = 2000;

/// Deadline of the poll that waits for a measurement.
pub const MEASUREMENT_TIMEOUT_MS: u64 = 5000;

/// Deadline of the wait for the busy bit to clear before a command.
pub const BUSY_TIMEOUT_MS: u64 = 5000;

/// Pause between two status reads of a busy or measurement poll.
pub const POLL_INTERVAL_MS: u64 = 10;

/// Pause between two status reads of the calibration poll.
pub const CALIBRATION_POLL_INTERVAL_MS: u64 = 50;

/// Time the distance application needs after a module reset.
pub const DISTANCE_RESET_SETTLE_MS: u64 = 500;

/// Time the presence application needs after a module reset.
pub const PRESENCE_RESET_SETTLE_MS: u64 = 200;

/// A calibration older than this (five minutes) is stale.
pub const CALIBRATION_MAX_AGE_MS: u64 = 300000;

/// Attempts `auto_connect` makes before it gives up.
pub const CONNECT_MAX_ATTEMPTS: u32 = 3;

/// Backoff between two connection attempts.
pub const CONNECT_RETRY_DELAY_MS: u64 = 500;

/// Boot time of the module's application after a hardware reset.
pub const BOOT_WAIT_MS: u64 = 1000;

/// Time the pins need to settle before the reset pulse.
pub const GPIO_SETTLE_MS: u64 = 10;

/// Width of the reset pulse; 10 ms is the documented minimum of the STM32.
pub const RESET_PULSE_MS: u64 = 10;

/// Time the application needs to start after reset is released.
pub const RESET_RELEASE_MS: u64 = 100;

/// Time the module needs after wake is raised again.
pub const WAKE_SETTLE_MS: u64 = 100;

/// Time the kernel needs to create the files of a newly exported pin.
pub const GPIO_EXPORT_SETTLE_MS: u64 = 100;

/// Time the system needs after the SPI controller has been unbound.
pub const SPI_UNBIND_SETTLE_MS: u64 = 1000;

/// Hold time of each level in the boot pin test.
pub const BOOT_TEST_HOLD_MS: u64 = 500;

/// Time the module needs after the flasher has handed over to the
/// application.
pub const FLASH_SETTLE_MS: u64 = 500;

/// Time the application needs to come up after a reset that follows a
/// firmware update.
pub const RUN_MODE_SETTLE_MS: u64 = 1500;

/// Time the application needs before its application id can be read.
pub const VERIFY_SETTLE_MS: u64 = 1000;

/// I2C address of the module in run mode.
pub const RUN_MODE_I2C_ADDRESS: u16 = 0x52;

/// I2C address of the module's bootloader.
pub const BOOTLOADER_I2C_ADDRESS: u16 = 0x48;

/// Whether a status word shows the busy bit. The busy bit is the top bit in
/// every application.
pub open spec fn spec_status_busy(status: u32) -> bool {
    status & 0x8000_0000u32 != 0
}

/// Whether a status word shows the busy bit.
#[verifier::when_used_as_spec(spec_status_busy)]
pub fn status_busy(status: u32) -> (r: bool)
    ensures
        r == spec_status_busy(status),
{
    status & 0x8000_0000u32 != 0
}

} // verus!
