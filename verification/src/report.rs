//! Errors, status words and device states in words.

use vstd::prelude::*;
use crate::device_manager::DeviceState;
use crate::error::DeviceFault;
use crate::error::FirmwareFault;
use crate::error::ParameterFault;
use crate::error::RadarError;
use crate::gpio::GpioValue;
use crate::gpio::XM125GpioPins;
use crate::status::failed_steps;
use crate::status::spec_failed_steps;
use crate::status::Application;
use crate::status::SetupStep;
use crate::text::push_decimal;
use crate::text::push_hex32;
use crate::text::spec_decimal;
use crate::text::spec_hex;

verus! {

/// What the failure of a sub-step is called.
pub open spec fn spec_step_failure(step: SetupStep) -> Seq<char> {
    match step {
        SetupStep::RssRegister => "RSS registration failed"@,
        SetupStep::ConfigCreate => "Configuration creation failed"@,
        SetupStep::SensorCreate => "Sensor creation failed"@,
        SetupStep::SensorCalibrate => "Sensor calibration failed"@,
        SetupStep::DetectorCreate => "Detector creation failed"@,
        SetupStep::DetectorBuffer => "Detector buffer failed"@,
        SetupStep::SensorBuffer => "Sensor buffer failed"@,
        SetupStep::CalibrationBuffer => "Calibration buffer failed"@,
        SetupStep::ConfigApply => "Configuration apply failed"@,
        SetupStep::DetectorCalibrate => "Detector calibration failed"@,
        SetupStep::Detector => "Detector failed"@,
    }
}

/// What the failure of a sub-step is called.
pub fn step_failure(step: SetupStep) -> (name: &'static str)
    ensures
        name@ == spec_step_failure(step),
{
    match step {
        SetupStep::RssRegister => "RSS registration failed",
        SetupStep::ConfigCreate => "Configuration creation failed",
        SetupStep::SensorCreate => "Sensor creation failed",
        SetupStep::SensorCalibrate => "Sensor calibration failed",
        SetupStep::DetectorCreate => "Detector creation failed",
        SetupStep::DetectorBuffer => "Detector buffer failed",
        SetupStep::SensorBuffer => "Sensor buffer failed",
        SetupStep::CalibrationBuffer => "Calibration buffer failed",
        SetupStep::ConfigApply => "Configuration apply failed",
        SetupStep::DetectorCalibrate => "Detector calibration failed",
        SetupStep::Detector => "Detector failed",
    }
}

/// The failures of the first `count` of the sub-steps, separated by
/// commas.
pub open spec fn failures_listed(steps: Seq<SetupStep>, count: int) -> Seq<char>
    decreases count,
{
    if count <= 0 {
        Seq::empty()
    } else if count == 1 {
        spec_step_failure(steps[0])
    } else {
        failures_listed(steps, count - 1) + ", "@ + spec_step_failure(steps[count - 1])
    }
}

/// A value in thousandths, with three decimal places.
pub open spec fn spec_thousandths(value: u32) -> Seq<char> {
    spec_decimal((value / 1000) as nat) + "."@ + three_digits(value % 1000)
}

/// The three decimal digits of a value below a thousand.
pub open spec fn three_digits(value: u32) -> Seq<char> {
    spec_decimal((value / 100) as nat) + spec_decimal((value / 10 % 10) as nat) + spec_decimal(
        (value % 10) as nat,
    )
}

/// A device fault in words. A failed calibration names every sub-step
/// that the status word blames, and no other.
pub open spec fn spec_fault_message(fault: DeviceFault) -> Seq<char> {
    match fault {
        DeviceFault::CalibrationFailed { status } => "Calibration failed: "@ + failures_listed(
            spec_failed_steps(Application::Distance, status),
            spec_failed_steps(Application::Distance, status).len() as int,
        ) + " (status: 0x"@ + spec_hex(status as nat, 8) + ")"@,
        DeviceFault::ConfigurationRejected { .. } =>
            "Configuration verification failed - detector did not accept the configuration"@,
        DeviceFault::DetectorStartFailed { .. } =>
            "Failed to start presence detector - check configuration"@,
        DeviceFault::BreathingConfigurationFailed { .. } =>
            "Breathing application did not accept the configuration"@,
        DeviceFault::MeasurementFailed { .. } => "Device error during measurement"@,
        DeviceFault::PresenceDetectorError => "Presence detector error flag set"@,
        DeviceFault::GpioNotInitialized => "GPIO controller not initialized"@,
        DeviceFault::GpioExportFailed { pin } => "Failed to export GPIO"@ + spec_decimal(pin as nat),
        DeviceFault::GpioDirectionFailed { pin } => "Failed to set direction of GPIO"@
            + spec_decimal(pin as nat),
        DeviceFault::GpioValueFailed { pin } => "Failed to set value of GPIO"@ + spec_decimal(
            pin as nat,
        ),
        DeviceFault::GpioReadFailed { pin } => "Failed to read value of GPIO"@ + spec_decimal(
            pin as nat,
        ),
        DeviceFault::BootPinClaimed { pin } => "Failed to free bootloader pin after SPI unbind: GPIO"@
            + spec_decimal(pin as nat),
        DeviceFault::ModuleNotReady { seconds } => "Timeout waiting for XM125 ready signal after "@
            + spec_decimal(seconds as nat) + "s"@,
    }
}

/// A firmware fault in words.
pub open spec fn spec_firmware_message(fault: FirmwareFault) -> Seq<char> {
    match fault {
        FirmwareFault::FlashFailed => "Firmware flashing failed"@,
        FirmwareFault::ApplicationMismatch { expected, actual } =>
            "Firmware verification failed - Expected App ID "@ + spec_decimal(expected as nat)
                + ", got "@ + spec_decimal(actual as nat),
        FirmwareFault::Unverified =>
            "Firmware verification failed - application id could not be read"@,
    }
}

/// A rejected parameter in words.
pub open spec fn spec_parameter_message(fault: ParameterFault) -> Seq<char> {
    match fault {
        ParameterFault::RangeFormat => "Invalid range format. Use 'start:end' (e.g., '0.1:3.0')"@,
        ParameterFault::RangeStart => "Invalid start range"@,
        ParameterFault::RangeEnd => "Invalid end range"@,
        ParameterFault::RangeOrder { start_mm, end_mm } => "Start range ("@ + spec_decimal(
            start_mm as nat,
        ) + " mm) must be less than end range ("@ + spec_decimal(end_mm as nat) + " mm)"@,
        ParameterFault::Sensitivity { milli } => "Sensitivity must be between 0.1 and 5.0 (got "@
            + spec_thousandths(milli) + ")"@,
        ParameterFault::FrameRate { millihertz } =>
            "Frame rate must be between 1.0 and 60.0 Hz (got "@ + spec_thousandths(millihertz)
                + ")"@,
        ParameterFault::NotPresenceMode => "Detector not configured for presence detection"@,
        ParameterFault::NotCombinedMode => "Detector not configured for combined detection"@,
    }
}

/// An error in words.
pub open spec fn spec_message(error: RadarError) -> Seq<char> {
    match error {
        RadarError::Bus => "I2C communication error"@,
        RadarError::Timeout { timeout_ms, .. } => "Command timeout after "@ + spec_decimal(
            (timeout_ms / 1000) as nat,
        ) + "s"@,
        RadarError::InvalidResponse => "Invalid response from XM125"@,
        RadarError::DeviceError { fault } => "XM125 returned error: "@ + spec_fault_message(fault),
        RadarError::NotConnected => "XM125 not connected or not responding"@,
        RadarError::InvalidParameters { reason } => "Invalid command parameters: "@
            + spec_parameter_message(reason),
        RadarError::FirmwareError { cause } => "Firmware error: "@ + spec_firmware_message(cause),
        RadarError::ModuleNotProgrammed => "XM125 module not programmed or not responding"@,
    }
}

fn push_failures(text: &mut String, steps: &Vec<SetupStep>)
    ensures
        final(text)@ == old(text)@ + failures_listed(steps@, steps@.len() as int),
{
    let mut i: usize = 0;
    while i < steps.len()
        invariant
            i <= steps@.len(),
            text@ == old(text)@ + failures_listed(steps@, i as int),
        decreases steps@.len() - i,
    {
        if i > 0 {
            text.append(", ");
        }
        text.append(step_failure(steps[i]));
        proof {
            if i == 0 {
                assert(text@ =~= old(text)@ + failures_listed(steps@, 1));
            } else {
                assert(text@ =~= old(text)@ + failures_listed(steps@, i as int + 1));
            }
        }
        i = i + 1;
    }
}

fn push_thousandths(text: &mut String, value: u32)
    ensures
        final(text)@ == old(text)@ + spec_thousandths(value),
{
    push_decimal(text, (value / 1000) as u64);
    text.append(".");
    let rest = value % 1000;
    push_decimal(text, (rest / 100) as u64);
    push_decimal(text, (rest / 10 % 10) as u64);
    push_decimal(text, (rest % 10) as u64);
    assert(text@ =~= old(text)@ + spec_thousandths(value));
}

fn push_fault(text: &mut String, fault: DeviceFault)
    ensures
        final(text)@ == old(text)@ + spec_fault_message(fault),
{
    match fault {
        DeviceFault::CalibrationFailed { status } => {
            text.append("Calibration failed: ");
            let steps = failed_steps(Application::Distance, status);
            push_failures(text, &steps);
            text.append(" (status: 0x");
            push_hex32(text, status);
            text.append(")");
        },
        DeviceFault::ConfigurationRejected { .. } => {
            text.append(
                "Configuration verification failed - detector did not accept the configuration",
            );
        },
        DeviceFault::DetectorStartFailed { .. } => {
            text.append("Failed to start presence detector - check configuration");
        },
        DeviceFault::BreathingConfigurationFailed { .. } => {
            text.append("Breathing application did not accept the configuration");
        },
        DeviceFault::MeasurementFailed { .. } => {
            text.append("Device error during measurement");
        },
        DeviceFault::PresenceDetectorError => {
            text.append("Presence detector error flag set");
        },
        DeviceFault::GpioNotInitialized => {
            text.append("GPIO controller not initialized");
        },
        DeviceFault::GpioExportFailed { pin } => {
            text.append("Failed to export GPIO");
            push_decimal(text, pin as u64);
        },
        DeviceFault::GpioDirectionFailed { pin } => {
            text.append("Failed to set direction of GPIO");
            push_decimal(text, pin as u64);
        },
        DeviceFault::GpioValueFailed { pin } => {
            text.append("Failed to set value of GPIO");
            push_decimal(text, pin as u64);
        },
        DeviceFault::GpioReadFailed { pin } => {
            text.append("Failed to read value of GPIO");
            push_decimal(text, pin as u64);
        },
        DeviceFault::BootPinClaimed { pin } => {
            text.append("Failed to free bootloader pin after SPI unbind: GPIO");
            push_decimal(text, pin as u64);
        },
        DeviceFault::ModuleNotReady { seconds } => {
            text.append("Timeout waiting for XM125 ready signal after ");
            push_decimal(text, seconds as u64);
            text.append("s");
        },
    }
    assert(text@ =~= old(text)@ + spec_fault_message(fault));
}

fn push_firmware_fault(text: &mut String, fault: FirmwareFault)
    ensures
        final(text)@ == old(text)@ + spec_firmware_message(fault),
{
    match fault {
        FirmwareFault::FlashFailed => {
            text.append("Firmware flashing failed");
        },
        FirmwareFault::ApplicationMismatch { expected, actual } => {
            text.append("Firmware verification failed - Expected App ID ");
            push_decimal(text, expected as u64);
            text.append(", got ");
            push_decimal(text, actual as u64);
        },
        FirmwareFault::Unverified => {
            text.append("Firmware verification failed - application id could not be read");
        },
    }
    assert(text@ =~= old(text)@ + spec_firmware_message(fault));
}

fn push_parameter_fault(text: &mut String, fault: ParameterFault)
    ensures
        final(text)@ == old(text)@ + spec_parameter_message(fault),
{
    match fault {
        ParameterFault::RangeFormat => {
            text.append("Invalid range format. Use 'start:end' (e.g., '0.1:3.0')");
        },
        ParameterFault::RangeStart => {
            text.append("Invalid start range");
        },
        ParameterFault::RangeEnd => {
            text.append("Invalid end range");
        },
        ParameterFault::RangeOrder { start_mm, end_mm } => {
            text.append("Start range (");
            push_decimal(text, start_mm as u64);
            text.append(" mm) must be less than end range (");
            push_decimal(text, end_mm as u64);
            text.append(" mm)");
        },
        ParameterFault::Sensitivity { milli } => {
            text.append("Sensitivity must be between 0.1 and 5.0 (got ");
            push_thousandths(text, milli);
            text.append(")");
        },
        ParameterFault::FrameRate { millihertz } => {
            text.append("Frame rate must be between 1.0 and 60.0 Hz (got ");
            push_thousandths(text, millihertz);
            text.append(")");
        },
        ParameterFault::NotPresenceMode => {
            text.append("Detector not configured for presence detection");
        },
        ParameterFault::NotCombinedMode => {
            text.append("Detector not configured for combined detection");
        },
    }
    assert(text@ =~= old(text)@ + spec_parameter_message(fault));
}

/// The error in words.
pub fn message(error: RadarError) -> (text: String)
    ensures
        text@ == spec_message(error),
{
    let mut text = String::new();
    match error {
        RadarError::Bus => {
            text.append("I2C communication error");
        },
        RadarError::Timeout { timeout_ms, .. } => {
            text.append("Command timeout after ");
            push_decimal(&mut text, timeout_ms / 1000);
            text.append("s");
        },
        RadarError::InvalidResponse => {
            text.append("Invalid response from XM125");
        },
        RadarError::DeviceError { fault } => {
            text.append("XM125 returned error: ");
            push_fault(&mut text, fault);
        },
        RadarError::NotConnected => {
            text.append("XM125 not connected or not responding");
        },
        RadarError::InvalidParameters { reason } => {
            text.append("Invalid command parameters: ");
            push_parameter_fault(&mut text, reason);
        },
        RadarError::FirmwareError { cause } => {
            text.append("Firmware error: ");
            push_firmware_fault(&mut text, cause);
        },
        RadarError::ModuleNotProgrammed => {
            text.append("XM125 module not programmed or not responding");
        },
    }
    assert(text@ =~= spec_message(error));
    text
}

impl RadarError {
    /// The error in words.
    pub fn to_string(&self) -> (text: String)
        ensures
            text@ == spec_message(*self),
    {
        message(*self)
    }
}

/// Bit of the status word that the status line reports as a ready detector.
pub const STATUS_LINE_DETECTOR_READY: u32 = 0x0000_0010;

/// Bit of the status word that the status line reports as calibrated.
pub const STATUS_LINE_CALIBRATED: u32 = 0x0000_0008;

/// Bit of the status word that the status line reports as a measurement.
pub const STATUS_LINE_MEASUREMENT_READY: u32 = 0x0000_0004;

/// Bit of the status word that the status line reports as an error.
pub const STATUS_LINE_ERROR: u32 = 0x1000_0000;

/// `name`, after a comma if something stands before it.
pub open spec fn listed(before: Seq<char>, name: Seq<char>) -> Seq<char> {
    if before.len() == 0 {
        name
    } else {
        before + ", "@ + name
    }
}

/// `name` added to the list if `present`.
pub open spec fn listed_if(before: Seq<char>, present: bool, name: Seq<char>) -> Seq<char> {
    if present {
        listed(before, name)
    } else {
        before
    }
}

/// The states that a status word shows, separated by commas; a word that
/// shows none is initializing.
pub open spec fn spec_status_parts(word: u32) -> Seq<char> {
    let parts = listed_if(
        listed_if(
            listed_if(
                listed_if(
                    Seq::empty(),
                    word & STATUS_LINE_DETECTOR_READY != 0,
                    "Detector Ready"@,
                ),
                word & STATUS_LINE_CALIBRATED != 0,
                "Calibrated"@,
            ),
            word & STATUS_LINE_MEASUREMENT_READY != 0,
            "Measurement Ready"@,
        ),
        word & STATUS_LINE_ERROR != 0,
        "ERROR"@,
    );
    if parts.len() == 0 {
        "Initializing"@
    } else {
        parts
    }
}

/// The status line of a status word: its states, and the word itself in
/// hexadecimal.
pub open spec fn spec_status_report(word: u32) -> Seq<char> {
    "Status: "@ + spec_status_parts(word) + " (0x"@ + spec_hex(word as nat, 8) + ")"@
}

fn push_listed(text: &mut String, present: bool, name: &str)
    ensures
        final(text)@ == listed_if(old(text)@, present, name@),
{
    if present {
        if text.as_str().unicode_len() > 0 {
            text.append(", ");
        }
        text.append(name);
    }
}

/// The status line of a status word.
pub fn status_report(word: u32) -> (text: String)
    ensures
        text@ == spec_status_report(word),
{
    let mut parts = String::new();
    push_listed(&mut parts, word & STATUS_LINE_DETECTOR_READY != 0, "Detector Ready");
    push_listed(&mut parts, word & STATUS_LINE_CALIBRATED != 0, "Calibrated");
    push_listed(&mut parts, word & STATUS_LINE_MEASUREMENT_READY != 0, "Measurement Ready");
    push_listed(&mut parts, word & STATUS_LINE_ERROR != 0, "ERROR");
    if parts.as_str().unicode_len() == 0 {
        parts.append("Initializing");
    }
    assert(parts@ =~= spec_status_parts(word));
    let mut text = String::from_str("Status: ");
    text.append(parts.as_str());
    text.append(" (0x");
    push_hex32(&mut text, word);
    text.append(")");
    assert(text@ =~= spec_status_report(word));
    text
}

/// The lines that describe the module: its version and its application
/// id, both in hexadecimal.
pub open spec fn spec_info_report(version: u32, application_id: u32) -> Seq<char> {
    "XM125 Radar Module\nVersion: 0x"@ + spec_hex(version as nat, 8) + "\nApplication ID: 0x"@
        + spec_hex(application_id as nat, 8)
}

/// The lines that describe the module.
pub fn info_report(version: u32, application_id: u32) -> (text: String)
    ensures
        text@ == spec_info_report(version, application_id),
{
    let mut text = String::from_str("XM125 Radar Module\nVersion: 0x");
    push_hex32(&mut text, version);
    text.append("\nApplication ID: 0x");
    push_hex32(&mut text, application_id);
    assert(text@ =~= spec_info_report(version, application_id));
    text
}

pub open spec fn yes_no(value: bool) -> Seq<char> {
    if value {
        "YES"@
    } else {
        "NO"@
    }
}

/// The lines that describe a device state. Firmware and application id
/// have a line each only where they are known.
pub open spec fn spec_device_info(state: DeviceState) -> Seq<char> {
    "Device Present: "@ + yes_no(state.is_present) + "\nDevice Responsive: "@ + yes_no(
        state.is_responsive,
    ) + "\n"@ + (match state.firmware_type {
        Some(firmware) => "Firmware Type: "@ + crate::firmware::spec_display_name(firmware) + "\n"@,
        None => Seq::empty(),
    }) + (match state.app_id {
        Some(id) => "Application ID: "@ + spec_decimal(id as nat) + "\n"@,
        None => Seq::empty(),
    }) + "Needs Reset: "@ + yes_no(state.needs_reset)
}

fn push_yes_no(text: &mut String, value: bool)
    ensures
        final(text)@ == old(text)@ + yes_no(value),
{
    if value {
        text.append("YES");
    } else {
        text.append("NO");
    }
}

/// The lines that describe a device state.
pub fn device_info(state: &DeviceState) -> (text: String)
    ensures
        text@ == spec_device_info(*state),
{
    let mut text = String::from_str("Device Present: ");
    push_yes_no(&mut text, state.is_present);
    text.append("\nDevice Responsive: ");
    push_yes_no(&mut text, state.is_responsive);
    text.append("\n");
    if let Some(firmware) = state.firmware_type {
        text.append("Firmware Type: ");
        text.append(firmware.display_name());
        text.append("\n");
    }
    if let Some(id) = state.app_id {
        text.append("Application ID: ");
        push_decimal(&mut text, id as u64);
        text.append("\n");
    }
    text.append("Needs Reset: ");
    push_yes_no(&mut text, state.needs_reset);
    assert(text@ =~= spec_device_info(*state));
    text
}

/// The level of a pin as the status shows it: its digit, or a question
/// mark where it could not be read.
pub open spec fn level_mark(level: Option<GpioValue>) -> Seq<char> {
    match level {
        Some(GpioValue::Low) => "0"@,
        Some(GpioValue::High) => "1"@,
        None => "?"@,
    }
}

/// One line of the pin status.
pub open spec fn pin_line(name: Seq<char>, pin: u32, level: Option<GpioValue>, meaning: Seq<char>) -> Seq<
    char,
> {
    name + " (GPIO"@ + spec_decimal(pin as nat) + "): "@ + level_mark(level) + " ("@ + meaning
        + ")\n"@
}

/// The status of the four pins, a line each: reset, interrupt, wake and
/// boot select, each with its level and with what the levels mean.
pub open spec fn spec_gpio_status(
    pins: XM125GpioPins,
    reset: Option<GpioValue>,
    mcu_interrupt: Option<GpioValue>,
    wake_up: Option<GpioValue>,
    boot: Option<GpioValue>,
) -> Seq<char> {
    pin_line("Reset"@, pins.reset, reset, "1=released, 0=asserted"@) + pin_line(
        "MCU Int"@,
        pins.mcu_interrupt,
        mcu_interrupt,
        "1=ready, 0=not ready"@,
    ) + pin_line("Wake Up"@, pins.wake_up, wake_up, "1=awake, 0=sleep"@) + pin_line(
        "Boot Pin"@,
        pins.boot,
        boot,
        "1=bootloader, 0=run mode"@,
    )
}

fn push_pin_line(text: &mut String, name: &str, pin: u32, level: Option<GpioValue>, meaning: &str)
    ensures
        final(text)@ == old(text)@ + pin_line(name@, pin, level, meaning@),
{
    text.append(name);
    text.append(" (GPIO");
    push_decimal(text, pin as u64);
    text.append("): ");
    match level {
        Some(GpioValue::Low) => {
            text.append("0");
        },
        Some(GpioValue::High) => {
            text.append("1");
        },
        None => {
            text.append("?");
        },
    }
    text.append(" (");
    text.append(meaning);
    text.append(")\n");
    assert(text@ =~= old(text)@ + pin_line(name@, pin, level, meaning@));
}

/// The status of the four pins, from their levels as far as they could be
/// read.
pub fn gpio_status(
    pins: &XM125GpioPins,
    reset: Option<GpioValue>,
    mcu_interrupt: Option<GpioValue>,
    wake_up: Option<GpioValue>,
    boot: Option<GpioValue>,
) -> (text: String)
    ensures
        text@ == spec_gpio_status(*pins, reset, mcu_interrupt, wake_up, boot),
{
    let mut text = String::new();
    push_pin_line(&mut text, "Reset", pins.reset, reset, "1=released, 0=asserted");
    push_pin_line(&mut text, "MCU Int", pins.mcu_interrupt, mcu_interrupt, "1=ready, 0=not ready");
    push_pin_line(&mut text, "Wake Up", pins.wake_up, wake_up, "1=awake, 0=sleep");
    push_pin_line(&mut text, "Boot Pin", pins.boot, boot, "1=bootloader, 0=run mode");
    assert(text@ =~= spec_gpio_status(*pins, reset, mcu_interrupt, wake_up, boot));
    text
}

} // verus!
