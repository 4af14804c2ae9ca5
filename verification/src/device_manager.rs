//! What is known of the module before a session begins.

use vstd::prelude::*;
use vstd::string::StringSliceAdditionalSpecFns;
use vstd::slice::slice_subrange;
use crate::error::FirmwareFault;
use crate::error::RadarError;
use crate::firmware::FirmwareManager;
use crate::firmware::FirmwareState;
use crate::firmware::FirmwareType;
use crate::registers;
use crate::text::parse_unsigned;
use crate::text::spec_contains;
use crate::text::spec_parse_unsigned;
use crate::text::Radix;

verus! {

/// What a look at the bus tells of the module.
#[derive(Clone, Copy, Debug, PartialEq, Eq, Structural)]
pub struct DeviceState {
    pub is_present: bool,
    pub is_responsive: bool,
    pub firmware_type: Option<FirmwareType>,
    pub app_id: Option<u32>,
    pub needs_reset: bool,
}

/// The I2C bus that is assumed where a device path names none.
pub const DEFAULT_I2C_BUS: u8 = 2;

/// Position behind the last hyphen of `path`, or 0 if it has none.
pub open spec fn after_last_hyphen(path: Seq<u8>) -> int
    decreases path.len(),
{
    if path.len() == 0 {
        0
    } else if path.last() == 45 {
        path.len() as int
    } else {
        after_last_hyphen(path.drop_last())
    }
}

/// The bus number in a device path such as `/dev/i2c-2`: the decimal
/// number behind the last hyphen, up to 255, or the default bus where
/// there is no such number.
pub open spec fn spec_bus_number(path: Seq<u8>) -> u8 {
    match spec_parse_unsigned(path.skip(after_last_hyphen(path)), Radix::Decimal, 255) {
        Some(bus) => bus as u8,
        None => DEFAULT_I2C_BUS,
    }
}

/// The lower-case hexadecimal digit of a value below sixteen.
pub open spec fn lower_hex_byte(value: int) -> u8 {
    if value < 10 {
        (48 + value) as u8
    } else {
        (87 + value) as u8
    }
}

/// An address as a bus scan prints it: two lower-case hexadecimal digits
/// between spaces.
pub open spec fn scan_entry(address: u8) -> Seq<u8> {
    seq![32u8, lower_hex_byte(address as int / 16), lower_hex_byte(address as int % 16), 32u8]
}

/// Whether a bus scan shows the module: at its own address, or at that of
/// its bootloader.
pub open spec fn spec_scan_shows_device(scan: Seq<u8>, address: u8) -> bool {
    spec_contains(scan, scan_entry(address)) || spec_contains(
        scan,
        scan_entry(registers::BOOTLOADER_I2C_ADDRESS as u8),
    )
}

/// What is known of a module that was, or was not, seen on the bus. A
/// module that was seen counts as responsive; one that was not needs a
/// reset.
pub open spec fn spec_device_state(present_on_bus: bool) -> DeviceState {
    DeviceState {
        is_present: present_on_bus,
        is_responsive: present_on_bus,
        firmware_type: None,
        app_id: None,
        needs_reset: !present_on_bus,
    }
}

/// The error that tells a module that is absent from one that is present
/// and failing.
pub open spec fn spec_require_present(state: DeviceState) -> Result<(), RadarError> {
    if state.is_present {
        Ok(())
    } else {
        Err(RadarError::ModuleNotProgrammed)
    }
}

/// Whether a module in this state is known to run `target`. Where its
/// application id is known, the id decides; else the firmware does, if
/// that is known.
pub open spec fn spec_runs(state: DeviceState, target: FirmwareType) -> bool {
    match state.app_id {
        Some(id) => id == target.application_id(),
        None => state.firmware_type == Some(target),
    }
}

/// Whether a module in this state has to be flashed to run `target`: it
/// has unless it is known to run it already.
pub open spec fn spec_update_needed(state: DeviceState, target: FirmwareType) -> bool {
    !spec_runs(state, target)
}

/// How an update to `target` ended, given the state of the module after
/// it. Only a module that is known to run `target` counts as updated: one
/// that runs another application, known or not, is a mismatch, and one of
/// which nothing is known is unverified.
pub open spec fn spec_update_outcome(target: FirmwareType, after: DeviceState) -> Result<
    (),
    RadarError,
> {
    if spec_runs(after, target) {
        Ok(())
    } else {
        match (after.app_id, after.firmware_type) {
            (Some(id), _) => Err(
                RadarError::FirmwareError {
                    cause: FirmwareFault::ApplicationMismatch {
                        expected: target.application_id(),
                        actual: id,
                    },
                },
            ),
            (None, Some(actual)) => Err(
                RadarError::FirmwareError {
                    cause: FirmwareFault::ApplicationMismatch {
                        expected: target.application_id(),
                        actual: actual.application_id(),
                    },
                },
            ),
            (None, None) => Err(RadarError::FirmwareError { cause: FirmwareFault::Unverified }),
        }
    }
}

/// What is known of a module whose application id was read. An id that no
/// firmware reports leaves the firmware unknown.
pub open spec fn spec_identified(app_id: u32) -> DeviceState {
    DeviceState {
        is_present: true,
        is_responsive: true,
        firmware_type: FirmwareType::recognize(app_id),
        app_id: Some(app_id),
        needs_reset: false,
    }
}

/// A module whose application id was read counts as updated to `target`
/// exactly when the id is that of `target`. An id that no firmware reports
/// never does.
pub proof fn lemma_only_the_target_counts_as_updated(app_id: u32, target: FirmwareType)
    ensures
        spec_update_outcome(target, spec_identified(app_id)) is Ok <==> app_id
            == target.application_id(),
        spec_update_needed(spec_identified(app_id), target) <==> app_id
            != target.application_id(),
{
}

/// Looks after one module on one bus.
pub struct DeviceManager {
    i2c_device_path: Vec<u8>,
    i2c_address: u16,
    pub firmware_manager: FirmwareManager,
}

/// The state of a `DeviceManager`.
pub struct DeviceManagerState {
    /// The device path in bytes.
    pub i2c_device_path: Seq<u8>,
    pub i2c_address: u16,
    pub firmware_manager: FirmwareState,
}

impl View for DeviceManager {
    type V = DeviceManagerState;

    closed spec fn view(&self) -> DeviceManagerState {
        DeviceManagerState {
            i2c_device_path: self.i2c_device_path@,
            i2c_address: self.i2c_address,
            firmware_manager: self.firmware_manager@,
        }
    }
}

fn lower_hex(value: u8) -> (byte: u8)
    requires
        value < 16,
    ensures
        byte == lower_hex_byte(value as int),
{
    if value < 10 {
        48 + value
    } else {
        87 + value
    }
}

fn build_scan_entry(address: u8) -> (entry: Vec<u8>)
    ensures
        entry@ == scan_entry(address),
{
    let mut entry: Vec<u8> = Vec::new();
    entry.push(32);
    entry.push(lower_hex(address / 16));
    entry.push(lower_hex(address % 16));
    entry.push(32);
    assert(entry@ =~= scan_entry(address));
    entry
}

impl DeviceManager {
    pub fn new(
        i2c_device_path: &str,
        i2c_address: u16,
        firmware_path: &str,
        control_script: &str,
    ) -> (manager: DeviceManager)
        ensures
            manager@ == (DeviceManagerState {
                i2c_device_path: i2c_device_path.spec_bytes(),
                i2c_address,
                firmware_manager: FirmwareState::fresh(firmware_path@, control_script@, i2c_address),
            }),
    {
        DeviceManager {
            i2c_device_path: i2c_device_path.as_bytes_vec(),
            i2c_address,
            firmware_manager: FirmwareManager::new(firmware_path, control_script, i2c_address),
        }
    }

    /// The number of the bus that the device path names.
    pub fn extract_i2c_bus_number(&self) -> (bus: u8)
        ensures
            bus == spec_bus_number(self@.i2c_device_path),
    {
        let path = self.i2c_device_path.as_slice();
        let mut from: usize = path.len();
        proof {
            assert(path@.take(from as int) =~= path@);
        }
        while from > 0 && path[from - 1] != 45
            invariant
                from <= path@.len(),
                after_last_hyphen(path@) == after_last_hyphen(path@.take(from as int)),
            decreases from,
        {
            proof {
                assert(path@.take(from as int).last() == path@[from - 1]);
                assert(path@.take(from as int).drop_last() =~= path@.take(from - 1));
            }
            from = from - 1;
        }
        proof {
            if from == 0 {
                assert(path@.take(0).len() == 0);
            } else {
                assert(path@.take(from as int).last() == 45);
            }
            assert(after_last_hyphen(path@) == from);
        }
        let digits = slice_subrange(path, from, path.len());
        assert(digits@ =~= path@.skip(from as int));
        match parse_unsigned(digits, Radix::Decimal, 255) {
            Some(bus) => bus as u8,
            None => DEFAULT_I2C_BUS,
        }
    }

    /// Whether the output of a bus scan shows the module.
    pub fn scan_shows_device(&self, scan: &[u8]) -> (present: bool)
        ensures
            present == spec_scan_shows_device(scan@, (self@.i2c_address % 256) as u8),
    {
        let own = build_scan_entry((self.i2c_address % 256) as u8);
        let bootloader = build_scan_entry((registers::BOOTLOADER_I2C_ADDRESS % 256) as u8);
        crate::text::contains(scan, own.as_slice()) || crate::text::contains(
            scan,
            bootloader.as_slice(),
        )
    }

    /// What is known of the module, given whether a bus scan showed it.
    pub fn check_device_presence(&self, present_on_bus: bool) -> (state: DeviceState)
        ensures
            state == spec_device_state(present_on_bus),
    {
        DeviceState {
            is_present: present_on_bus,
            is_responsive: present_on_bus,
            firmware_type: None,
            app_id: None,
            needs_reset: !present_on_bus,
        }
    }

    /// Fails, with the error that stands for absent hardware, unless the
    /// module was seen.
    pub fn require_present(state: &DeviceState) -> (r: Result<(), RadarError>)
        ensures
            r == spec_require_present(*state),
    {
        if state.is_present {
            Ok(())
        } else {
            Err(RadarError::ModuleNotProgrammed)
        }
    }

    /// Whether a module in this state is known to run `target`.
    pub fn runs(state: &DeviceState, target: FirmwareType) -> (running: bool)
        ensures
            running == spec_runs(*state, target),
    {
        match state.app_id {
            Some(id) => id == target.application_id(),
            None => match state.firmware_type {
                Some(actual) => actual == target,
                None => false,
            },
        }
    }

    /// Whether a module in this state has to be flashed to run `target`.
    pub fn update_needed(state: &DeviceState, target: FirmwareType) -> (needed: bool)
        ensures
            needed == spec_update_needed(*state, target),
    {
        !DeviceManager::runs(state, target)
    }

    /// How an update to `target` ended, given the state of the module
    /// after it.
    pub fn update_outcome(target: FirmwareType, after: &DeviceState) -> (r: Result<(), RadarError>)
        ensures
            r == spec_update_outcome(target, *after),
    {
        if DeviceManager::runs(after, target) {
            return Ok(());
        }
        match (after.app_id, after.firmware_type) {
            (Some(id), _) => Err(
                RadarError::FirmwareError {
                    cause: FirmwareFault::ApplicationMismatch {
                        expected: target.application_id(),
                        actual: id,
                    },
                },
            ),
            (None, Some(actual)) => Err(
                RadarError::FirmwareError {
                    cause: FirmwareFault::ApplicationMismatch {
                        expected: target.application_id(),
                        actual: actual.application_id(),
                    },
                },
            ),
            (None, None) => Err(RadarError::FirmwareError { cause: FirmwareFault::Unverified }),
        }
    }

    /// What is known of a module whose application id was read.
    pub fn identified(app_id: u32) -> (state: DeviceState)
        ensures
            state == spec_identified(app_id),
    {
        DeviceState {
            is_present: true,
            is_responsive: true,
            firmware_type: FirmwareType::recognize(app_id),
            app_id: Some(app_id),
            needs_reset: false,
        }
    }

    /// The lines that describe a device state.
    pub fn get_device_info(&self, state: &DeviceState) -> (text: String)
        ensures
            text@ == crate::report::spec_device_info(*state),
    {
        crate::report::device_info(state)
    }

    pub fn i2c_address(&self) -> (address: u16)
        ensures
            address == self@.i2c_address,
    {
        self.i2c_address
    }
}

} // verus!
