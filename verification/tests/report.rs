use xm125_radar_monitor::device_manager::DeviceState;
use xm125_radar_monitor::error::DeviceFault;
use xm125_radar_monitor::error::FirmwareFault;
use xm125_radar_monitor::error::Operation;
use xm125_radar_monitor::error::ParameterFault;
use xm125_radar_monitor::error::RadarError;
use xm125_radar_monitor::firmware::FirmwareType;
use xm125_radar_monitor::report::device_info;
use xm125_radar_monitor::report::info_report;
use xm125_radar_monitor::report::message;
use xm125_radar_monitor::report::status_report;
use xm125_radar_monitor::report::step_failure;
use xm125_radar_monitor::status::SetupStep;

#[test]
fn a_calibration_error_names_the_step_that_failed_and_no_other() {
    let text =
        message(RadarError::DeviceError { fault: DeviceFault::CalibrationFailed { status: 0x0100_0000 } });
    assert_eq!(
        text,
        "XM125 returned error: Calibration failed: Sensor calibration failed (status: 0x01000000)"
    );
    assert!(text.contains("calibration"));
    for other in ["creation", "apply", "buffer", "registration", "Detector"] {
        assert!(!text.contains(other), "{}", text);
    }
}

#[test]
fn several_failed_steps_are_listed_in_order() {
    let error = RadarError::DeviceError { fault: DeviceFault::CalibrationFailed { status: 0x1302_0000 } };
    assert_eq!(
        error.to_string(),
        "XM125 returned error: Calibration failed: Configuration creation failed, \
         Sensor calibration failed, Detector calibration failed, Detector failed \
         (status: 0x13020000)"
    );
    assert_eq!(step_failure(SetupStep::ConfigApply), "Configuration apply failed");
    assert_eq!(step_failure(SetupStep::RssRegister), "RSS registration failed");
}

#[test]
fn every_error_has_its_text() {
    assert_eq!(message(RadarError::Bus), "I2C communication error");
    assert_eq!(
        message(RadarError::Timeout { operation: Operation::Calibration, timeout_ms: 2000 }),
        "Command timeout after 2s"
    );
    assert_eq!(
        message(RadarError::Timeout { operation: Operation::BusyWait, timeout_ms: 5000 }),
        "Command timeout after 5s"
    );
    assert_eq!(message(RadarError::InvalidResponse), "Invalid response from XM125");
    assert_eq!(message(RadarError::NotConnected), "XM125 not connected or not responding");
    assert_eq!(
        message(RadarError::ModuleNotProgrammed),
        "XM125 module not programmed or not responding"
    );
    assert_eq!(
        message(RadarError::InvalidParameters { reason: ParameterFault::Sensitivity { milli: 6000 } }),
        "Invalid command parameters: Sensitivity must be between 0.1 and 5.0 (got 6.000)"
    );
    assert_eq!(
        message(RadarError::InvalidParameters {
            reason: ParameterFault::FrameRate { millihertz: 60_500 }
        }),
        "Invalid command parameters: Frame rate must be between 1.0 and 60.0 Hz (got 60.500)"
    );
    assert_eq!(
        message(RadarError::InvalidParameters {
            reason: ParameterFault::RangeOrder { start_mm: 3000, end_mm: 100 }
        }),
        "Invalid command parameters: Start range (3000 mm) must be less than end range (100 mm)"
    );
    assert_eq!(
        message(RadarError::InvalidParameters { reason: ParameterFault::RangeFormat }),
        "Invalid command parameters: Invalid range format. Use 'start:end' (e.g., '0.1:3.0')"
    );
    assert_eq!(
        message(RadarError::InvalidParameters { reason: ParameterFault::RangeStart }),
        "Invalid command parameters: Invalid start range"
    );
    assert_eq!(
        message(RadarError::InvalidParameters { reason: ParameterFault::RangeEnd }),
        "Invalid command parameters: Invalid end range"
    );
    assert_eq!(
        message(RadarError::InvalidParameters { reason: ParameterFault::NotPresenceMode }),
        "Invalid command parameters: Detector not configured for presence detection"
    );
    assert_eq!(
        message(RadarError::FirmwareError {
            cause: FirmwareFault::ApplicationMismatch { expected: 2, actual: 1 }
        }),
        "Firmware error: Firmware verification failed - Expected App ID 2, got 1"
    );
    assert_eq!(
        message(RadarError::FirmwareError { cause: FirmwareFault::FlashFailed }),
        "Firmware error: Firmware flashing failed"
    );
    assert_eq!(
        message(RadarError::DeviceError { fault: DeviceFault::GpioNotInitialized }),
        "XM125 returned error: GPIO controller not initialized"
    );
    assert_eq!(
        message(RadarError::DeviceError { fault: DeviceFault::GpioExportFailed { pin: 141 } }),
        "XM125 returned error: Failed to export GPIO141"
    );
    assert_eq!(
        message(RadarError::DeviceError { fault: DeviceFault::ModuleNotReady { seconds: 30 } }),
        "XM125 returned error: Timeout waiting for XM125 ready signal after 30s"
    );
    assert_eq!(
        message(RadarError::DeviceError { fault: DeviceFault::PresenceDetectorError }),
        "XM125 returned error: Presence detector error flag set"
    );
}

#[test]
fn hardware_that_is_absent_is_told_from_hardware_that_fails() {
    assert!(RadarError::ModuleNotProgrammed.is_hardware_absent());
    assert!(!RadarError::NotConnected.is_hardware_absent());
    assert!(!RadarError::Bus.is_hardware_absent());
}

#[test]
fn the_status_line_lists_what_the_word_shows() {
    assert_eq!(
        status_report(0x1C),
        "Status: Detector Ready, Calibrated, Measurement Ready (0x0000001C)"
    );
    assert_eq!(status_report(0), "Status: Initializing (0x00000000)");
    assert_eq!(status_report(0x1000_0000), "Status: ERROR (0x10000000)");
    assert_eq!(status_report(0x1000_0008), "Status: Calibrated, ERROR (0x10000008)");
    assert_eq!(status_report(0xABCD_EF03), "Status: Initializing (0xABCDEF03)");
}

#[test]
fn the_module_is_described_by_version_and_application() {
    assert_eq!(
        info_report(0x0102_0304, 2),
        "XM125 Radar Module\nVersion: 0x01020304\nApplication ID: 0x00000002"
    );
}

#[test]
fn a_device_state_is_described_line_by_line() {
    let absent = DeviceState {
        is_present: false,
        is_responsive: false,
        firmware_type: None,
        app_id: None,
        needs_reset: true,
    };
    assert_eq!(
        device_info(&absent),
        "Device Present: NO\nDevice Responsive: NO\nNeeds Reset: YES"
    );
    let known = DeviceState {
        is_present: true,
        is_responsive: true,
        firmware_type: Some(FirmwareType::Presence),
        app_id: Some(2),
        needs_reset: false,
    };
    assert_eq!(
        device_info(&known),
        "Device Present: YES\nDevice Responsive: YES\nFirmware Type: Presence Detector\n\
         Application ID: 2\nNeeds Reset: NO"
    );
}
