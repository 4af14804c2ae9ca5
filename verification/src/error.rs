//! Error taxonomy of the radar core.
//!
//! Every error is a plain value: which poll ran out, which sub-step of the
//! detector setup the status word blames, which pin failed. `text::message`
//! renders each of them for people.

use vstd::prelude::*;

verus! {

/// The bounded waits of the protocol.
#[derive(Clone, Copy, Debug, PartialEq, Eq, Structural)]
pub enum Operation {
    /// Waiting for the busy bit to clear.
    BusyWait,
    /// Waiting for apply-config-and-calibrate to finish.
    Calibration,
    /// Waiting for a measurement to become ready.
    Measurement,
    /// Waiting for the module's interrupt pin to go high.
    ModuleReady,
}

/// What the device, a pin or the flasher reported.
#[derive(Clone, Copy, Debug, PartialEq, Eq, Structural)]
pub enum DeviceFault {
    /// Error bits after apply-config-and-calibrate of the distance detector.
    CalibrationFailed { status: u32 },
    /// Error bits after apply-configuration of the presence detector.
    ConfigurationRejected { status: u32 },
    /// Error bits after the presence detector was started.
    DetectorStartFailed { status: u32 },
    /// Error bits after apply-configuration of the breathing application.
    BreathingConfigurationFailed { status: u32 },
    /// Error bits while waiting for a measurement.
    MeasurementFailed { status: u32 },
    /// The detector-error bit of the presence result word.
    PresenceDetectorError,
    /// A pin operation on a controller that was never initialized.
    GpioNotInitialized,
    GpioExportFailed { pin: u32 },
    GpioDirectionFailed { pin: u32 },
    GpioValueFailed { pin: u32 },
    GpioReadFailed { pin: u32 },
    /// The boot pin stayed claimed after the SPI driver was unbound.
    BootPinClaimed { pin: u32 },
    /// The interrupt pin did not go high within the given seconds.
    ModuleNotReady { seconds: u32 },
}

/// Why a firmware update did not end well.
#[derive(Clone, Copy, Debug, PartialEq, Eq, Structural)]
pub enum FirmwareFault {
    /// The flasher exited with a failure.
    FlashFailed,
    /// After flashing, the module runs another application than asked for.
    ApplicationMismatch { expected: u32, actual: u32 },
    /// After flashing, the application id could not be read.
    Unverified,
}

/// A rejected configuration value.
#[derive(Clone, Copy, Debug, PartialEq, Eq, Structural)]
pub enum ParameterFault {
    /// The range is not written as `start:end`.
    RangeFormat,
    /// The start of the range is no decimal number of metres.
    RangeStart,
    /// The end of the range is no decimal number of metres.
    RangeEnd,
    /// The range does not start before it ends.
    RangeOrder { start_mm: u32, end_mm: u32 },
    /// Sensitivity outside 0.1 to 5.0, in thousandths.
    Sensitivity { milli: u32 },
    /// Frame rate outside 1.0 to 60.0 Hz, in millihertz.
    FrameRate { millihertz: u32 },
    /// A presence measurement while another detector is selected.
    NotPresenceMode,
    /// A combined measurement while another detector is selected.
    NotCombinedMode,
}

#[derive(Clone, Copy, Debug, PartialEq, Eq, Structural)]
pub enum RadarError {
    /// An I2C transaction failed.
    Bus,
    /// A poll ran past its deadline.
    Timeout { operation: Operation, timeout_ms: u64 },
    /// The host answered a request with a reply of the wrong kind.
    InvalidResponse,
    /// The status register, a pin or a result word reported a failure.
    DeviceError { fault: DeviceFault },
    /// Not connected, and reconnecting is disabled or did not help.
    NotConnected,
    InvalidParameters { reason: ParameterFault },
    FirmwareError { cause: FirmwareFault },
    /// The module answers on neither its run-mode nor its bootloader
    /// address.
    ModuleNotProgrammed,
}

impl RadarError {
    /// Whether the error means that the hardware is absent, as opposed to
    /// present and failing.
    pub open spec fn spec_is_hardware_absent(self) -> bool {
        self == RadarError::ModuleNotProgrammed
    }

    #[verifier::when_used_as_spec(spec_is_hardware_absent)]
    pub fn is_hardware_absent(self) -> (r: bool)
        ensures
            r == self.spec_is_hardware_absent(),
    {
        match self {
            RadarError::ModuleNotProgrammed => true,
            _ => false,
        }
    }
}

} // verus!
