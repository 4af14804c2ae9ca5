//! The boundary between the core and its host.
//!
//! The core asks; the host acts and answers. A request is one bus
//! transaction, one pin operation, one pause or one run of the flasher.

use vstd::prelude::*;
use crate::firmware::FirmwareType;
use crate::gpio::GpioDirection;
use crate::gpio::GpioValue;

verus! {

/// The kernel objects that can hold the boot-select pin.
#[derive(Clone, Copy, Debug, PartialEq, Eq, Structural)]
pub enum SpiNode {
    /// The SPI device `spi1.0`.
    Device1,
    /// The SPI device `spi3.0`.
    Device3,
    /// The platform driver of the SPI controller `30830000.spi`.
    Controller,
}

/// One thing the core asks its host to do.
#[derive(Clone, Copy, Debug, PartialEq, Eq, Structural)]
pub enum Request {
    /// Write a 32-bit register. Answered with `Done` or `Failed`.
    WriteRegister { address: u16, value: u32 },
    /// Read a 32-bit register. Answered with `Word` or `Failed`.
    ReadRegister { address: u16 },
    /// Let the given time pass. Answered with `Done`.
    Sleep { ms: u64 },
    /// Is the pin exported? Answered with `Present`.
    ProbePin { pin: u32 },
    /// Export the pin. Answered with `Done` or `Failed`.
    ExportPin { pin: u32 },
    /// Answered with `Done` or `Failed`.
    SetPinDirection { pin: u32, direction: GpioDirection },
    /// Answered with `Done` or `Failed`.
    SetPinValue { pin: u32, level: GpioValue },
    /// Answered with `Level` or `Failed`.
    ReadPinValue { pin: u32 },
    /// Unbind a driver that may hold the boot-select pin, as far as that is
    /// possible. Answered with `Done` or `Failed`; both are accepted.
    UnbindSpi { node: SpiNode },
    /// Program the firmware binary through the bootloader. Answered with
    /// `Done` or `Failed`.
    Flash { firmware: FirmwareType },
}

/// What the host reports of the last request.
#[derive(Clone, Copy, Debug, PartialEq, Eq, Structural)]
pub enum Reply {
    Done,
    Failed,
    Word { value: u32 },
    Present { exported: bool },
    Level { level: GpioValue },
}

/// Time that has passed since `since_ms`. A clock that stepped back counts
/// as no time passed.
#[verifier::allow_in_spec]
pub fn elapsed_ms(since_ms: u64, now_ms: u64) -> u64
    returns
        (if now_ms >= since_ms {
            (now_ms - since_ms) as u64
        } else {
            0u64
        }),
{
    if now_ms >= since_ms {
        now_ms - since_ms
    } else {
        0u64
    }
}

} // verus!
