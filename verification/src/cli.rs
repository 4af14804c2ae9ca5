//! The vocabulary of the command line.
//!
//! The types that commands are made of, and the parsing of an I2C address.
//! Reading the arguments themselves is left to the program.

use vstd::prelude::*;
use vstd::string::StringSliceAdditionalSpecFns;
use vstd::slice::slice_subrange;
use crate::firmware::FirmwareType;
use crate::text::parse_unsigned;
use crate::text::spec_parse_unsigned;
use crate::text::Radix;

verus! {

/// Logging switches.
#[derive(Clone, Copy, Debug, PartialEq, Eq, Structural)]
pub struct LoggingArgs {
    /// Verbose debug logging.
    pub verbose: bool,
    /// Dump the registers after configuration.
    pub debug_registers: bool,
}

/// How measurements are printed.
#[derive(Clone, Copy, Debug, PartialEq, Eq, Structural)]
pub enum OutputFormat {
    Human,
    Json,
    Csv,
}

/// The firmware commands.
#[derive(Clone, Copy, Debug, PartialEq, Eq, Structural)]
pub enum FirmwareAction {
    /// Shows the firmware on the module.
    Check,
    /// Flashes a firmware.
    Update { firmware_type: FirmwareType, force: bool, verify: bool },
    /// Verifies the firmware on the module.
    Verify { expected: Option<FirmwareType> },
    /// Erases the module.
    Erase { confirm: bool },
    /// Prints the checksums of the firmware binaries.
    Checksum { selected: Option<FirmwareType>, verbose: bool },
    /// Resets the module into its bootloader.
    Bootloader { test_mode: bool },
}

impl FirmwareAction {
    /// Whether the action talks to the module's application over I2C.
    /// Checksums, erasing and the bootloader do without.
    #[verifier::allow_in_spec]
    pub fn needs_radar(self) -> bool
        returns
            (match self {
                FirmwareAction::Check => true,
                FirmwareAction::Update { .. } => true,
                FirmwareAction::Verify { .. } => true,
                _ => false,
            }),
    {
        match self {
            FirmwareAction::Check => true,
            FirmwareAction::Update { .. } => true,
            FirmwareAction::Verify { .. } => true,
            _ => false,
        }
    }
}

/// The pin commands.
#[derive(Clone, Copy, Debug, PartialEq, Eq, Structural)]
pub enum GpioAction {
    Init,
    Status,
    ResetRun,
    ResetBootloader,
    Test,
}

/// Whether `text` begins with `0x`.
pub open spec fn has_hex_prefix(text: Seq<u8>) -> bool {
    text.len() >= 2 && text[0] == 48 && text[1] == 120
}

/// The I2C address that `text` denotes, if it denotes one: hexadecimal
/// after the prefix `0x`, decimal without it, and at most 65535.
pub open spec fn spec_i2c_address(text: Seq<u8>) -> Option<u32> {
    if has_hex_prefix(text) {
        spec_parse_unsigned(text.skip(2), Radix::Hexadecimal, 0xFFFF)
    } else {
        spec_parse_unsigned(text, Radix::Decimal, 0xFFFF)
    }
}

/// Parses an I2C address, hexadecimal with the prefix `0x` or decimal.
/// The error says which of the two was expected, and repeats the text.
pub fn parse_i2c_address(s: &str) -> (r: Result<u16, String>)
    ensures
        match spec_i2c_address(s.spec_bytes()) {
            Some(address) => r == Ok::<u16, String>(address as u16),
            None => r matches Err(message) && message@ == (if has_hex_prefix(s.spec_bytes()) {
                "Invalid hex I2C address: "@
            } else {
                "Invalid I2C address: "@
            }) + s@,
        },
{
    let bytes = s.as_bytes();
    if bytes.len() >= 2 && bytes[0] == 48 && bytes[1] == 120 {
        let digits = slice_subrange(bytes, 2, bytes.len());
        assert(digits@ =~= bytes@.skip(2));
        match parse_unsigned(digits, Radix::Hexadecimal, 0xFFFF) {
            Some(address) => Ok(address as u16),
            None => {
                let mut message = String::from_str("Invalid hex I2C address: ");
                message.append(s);
                Err(message)
            },
        }
    } else {
        match parse_unsigned(bytes, Radix::Decimal, 0xFFFF) {
            Some(address) => Ok(address as u16),
            None => {
                let mut message = String::from_str("Invalid I2C address: ");
                message.append(s);
                Err(message)
            },
        }
    }
}

/// The I2C device path of a command line: the path given, or the device
/// of the bus given.
pub open spec fn spec_i2c_device_path(device: Option<Seq<char>>, bus: u32) -> Seq<char> {
    match device {
        Some(path) => path,
        None => "/dev/i2c-"@ + crate::text::spec_decimal(bus as nat),
    }
}

/// The I2C device path of a command line.
pub fn get_i2c_device_path(i2c_device: Option<&str>, i2c_bus: u32) -> (path: String)
    ensures
        path@ == spec_i2c_device_path(
            match i2c_device {
                Some(text) => Some(text@),
                None => None,
            },
            i2c_bus,
        ),
{
    match i2c_device {
        Some(device) => String::from_str(device),
        None => {
            let mut path = String::from_str("/dev/i2c-");
            crate::text::push_decimal(&mut path, i2c_bus as u64);
            path
        },
    }
}

/// The pins of a command line.
pub fn get_gpio_pins(gpio_reset: u32, gpio_mcu_int: u32, gpio_wake: u32, gpio_boot: u32) -> (pins:
    crate::gpio::XM125GpioPins)
    ensures
        pins == (crate::gpio::XM125GpioPins {
            reset: gpio_reset,
            mcu_interrupt: gpio_mcu_int,
            wake_up: gpio_wake,
            boot: gpio_boot,
        }),
{
    crate::gpio::XM125GpioPins {
        reset: gpio_reset,
        mcu_interrupt: gpio_mcu_int,
        wake_up: gpio_wake,
        boot: gpio_boot,
    }
}

} // verus!
