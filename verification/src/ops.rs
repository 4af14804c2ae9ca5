//! The steps that protocol sequences are made of.
//!
//! An `Op` is one step of a sequence: a register write, a command issued
//! under the busy/error discipline, a bounded poll, a pin operation. Most
//! steps are one request; the others are small state machines of their
//! own, and `Stage` says where such a step stands. `enter` begins a step and
//! `react` continues it with the host's reply.

use vstd::prelude::*;
use crate::error::DeviceFault;
use crate::error::FirmwareFault;
use crate::error::RadarError;
use crate::firmware::FirmwareType;
use crate::gpio::GpioDirection;
use crate::gpio::GpioValue;
use crate::host::elapsed_ms;
use crate::host::Reply;
use crate::host::Request;
use crate::host::SpiNode;
use crate::registers;
use crate::status::Application;
use crate::status::Condition;
use crate::status::Verdict;

verus! {

/// Which failure a `Check` step reports when it finds error bits.
#[derive(Clone, Copy, Debug, PartialEq, Eq, Structural)]
pub enum Blame {
    Configuration,
    DetectorStart,
    BreathingConfiguration,
    Measurement,
}

impl Blame {
    /// The fault that a status word with error bits amounts to.
    #[verifier::allow_in_spec]
    pub fn fault(self, status: u32) -> DeviceFault
        returns
            match self {
                Blame::Configuration => DeviceFault::ConfigurationRejected { status },
                Blame::DetectorStart => DeviceFault::DetectorStartFailed { status },
                Blame::BreathingConfiguration => DeviceFault::BreathingConfigurationFailed {
                    status,
                },
                Blame::Measurement => DeviceFault::MeasurementFailed { status },
            },
    {
        match self {
            Blame::Configuration => DeviceFault::ConfigurationRejected { status },
            Blame::DetectorStart => DeviceFault::DetectorStartFailed { status },
            Blame::BreathingConfiguration => DeviceFault::BreathingConfigurationFailed { status },
            Blame::Measurement => DeviceFault::MeasurementFailed { status },
        }
    }
}

/// One step of a protocol sequence.
#[derive(Clone, Copy, Debug, PartialEq, Eq, Structural)]
pub enum Op {
    /// Write a register; a bus failure ends the sequence.
    Write { address: u16, value: u32 },
    /// Write a register and go on whatever comes of it.
    WriteBestEffort { address: u16, value: u32 },
    /// Read a register into the sequence's result.
    Read { address: u16 },
    Sleep { ms: u64 },
    /// Issue a command: wait until the device is not busy, reset the module
    /// first if it reports an error, then write the command register.
    Command { app: Application, code: u32 },
    /// Poll the status register until the condition holds.
    Await { condition: Condition, timeout_ms: u64, interval_ms: u64 },
    /// Read the status register once and fail on any error bit.
    Check { app: Application, blame: Blame },
    /// Make the boot-select pin available, unbinding the SPI driver that
    /// may have claimed it.
    FreeBootPin { pin: u32 },
    /// Export the pin unless it is exported already.
    EnsureExported { pin: u32 },
    SetDirection { pin: u32, direction: GpioDirection },
    SetValue { pin: u32, level: GpioValue },
    /// Read the level of the pin into the sequence's result: 0 for low, 1
    /// for high.
    ReadLevel { pin: u32 },
    /// Read the pin once a second until it is high.
    AwaitPinHigh { pin: u32, seconds: u32 },
    /// Run the flasher.
    Flash { firmware: FirmwareType },
}

/// Where the step in progress stands: which request is outstanding.
#[derive(Clone, Copy, Debug, PartialEq, Eq, Structural)]
pub enum Stage {
    /// Nothing is outstanding.
    Idle,
    /// The single request of a one-request step.
    Direct,
    /// `Command`: a status read.
    CommandStatus { reset_done: bool },
    /// `Command`: the pause between two status reads of the busy wait.
    CommandPause { reset_done: bool },
    /// `Command`: the write of reset-module.
    CommandReset,
    /// `Command`: the settle time after the reset.
    CommandSettle,
    /// `Command`: the write of the command itself.
    CommandWrite,
    /// `Await`: a status read.
    PollStatus,
    /// `Await`: the pause between two status reads.
    PollPause,
    /// `Check`: the status read.
    CheckStatus,
    BootProbe,
    BootExport,
    BootUnbind { node: SpiNode },
    BootSettle,
    BootRetry,
    ExportProbe,
    ExportWrite,
    ExportSettle,
    /// `AwaitPinHigh`: a pin read, with the reads that are left.
    PinRead { left: u32 },
    /// `AwaitPinHigh`: the second between two reads.
    PinPause { left: u32 },
}

/// What a step does next.
#[derive(Clone, Copy, Debug, PartialEq, Eq, Structural)]
pub enum OpStep {
    /// The step goes on with another request.
    Continue { stage: Stage, since_ms: u64, request: Request },
    /// The step is done.
    Complete,
    /// The step is done and has read a register.
    CompleteWith { word: u32 },
    /// The step has failed, and the sequence with it.
    Abort { error: RadarError },
}

/// The read of the detector status register.
pub open spec fn status_read() -> Request {
    Request::ReadRegister { address: registers::REG_DETECTOR_STATUS }
}

/// The write of a command to the command register.
pub open spec fn command_write(code: u32) -> Request {
    Request::WriteRegister { address: registers::REG_COMMAND, value: code }
}

/// What a step does with a reply of the wrong kind.
pub open spec fn bad_reply() -> OpStep {
    OpStep::Abort { error: RadarError::InvalidResponse }
}

/// The failure of a one-request step whose request the host could not
/// carry out.
pub open spec fn direct_failure(op: Op) -> RadarError {
    match op {
        Op::ReadLevel { pin } => RadarError::DeviceError {
            fault: DeviceFault::GpioReadFailed { pin },
        },
        Op::SetDirection { pin, .. } => RadarError::DeviceError {
            fault: DeviceFault::GpioDirectionFailed { pin },
        },
        Op::SetValue { pin, .. } => RadarError::DeviceError {
            fault: DeviceFault::GpioValueFailed { pin },
        },
        Op::Flash { .. } => RadarError::FirmwareError { cause: FirmwareFault::FlashFailed },
        _ => RadarError::Bus,
    }
}

/// The first request of a step.
pub open spec fn spec_enter(op: Op, now_ms: u64) -> OpStep {
    match op {
        Op::Write { address, value } => OpStep::Continue {
            stage: Stage::Direct,
            since_ms: now_ms,
            request: Request::WriteRegister { address, value },
        },
        Op::WriteBestEffort { address, value } => OpStep::Continue {
            stage: Stage::Direct,
            since_ms: now_ms,
            request: Request::WriteRegister { address, value },
        },
        Op::Read { address } => OpStep::Continue {
            stage: Stage::Direct,
            since_ms: now_ms,
            request: Request::ReadRegister { address },
        },
        Op::Sleep { ms } => OpStep::Continue {
            stage: Stage::Direct,
            since_ms: now_ms,
            request: Request::Sleep { ms },
        },
        Op::Command { .. } => OpStep::Continue {
            stage: Stage::CommandStatus { reset_done: false },
            since_ms: now_ms,
            request: status_read(),
        },
        Op::Await { .. } => OpStep::Continue {
            stage: Stage::PollStatus,
            since_ms: now_ms,
            request: status_read(),
        },
        Op::Check { .. } => OpStep::Continue {
            stage: Stage::CheckStatus,
            since_ms: now_ms,
            request: status_read(),
        },
        Op::FreeBootPin { pin } => OpStep::Continue {
            stage: Stage::BootProbe,
            since_ms: now_ms,
            request: Request::ProbePin { pin },
        },
        Op::EnsureExported { pin } => OpStep::Continue {
            stage: Stage::ExportProbe,
            since_ms: now_ms,
            request: Request::ProbePin { pin },
        },
        Op::SetDirection { pin, direction } => OpStep::Continue {
            stage: Stage::Direct,
            since_ms: now_ms,
            request: Request::SetPinDirection { pin, direction },
        },
        Op::SetValue { pin, level } => OpStep::Continue {
            stage: Stage::Direct,
            since_ms: now_ms,
            request: Request::SetPinValue { pin, level },
        },
        Op::ReadLevel { pin } => OpStep::Continue {
            stage: Stage::Direct,
            since_ms: now_ms,
            request: Request::ReadPinValue { pin },
        },
        Op::AwaitPinHigh { pin, seconds } => if seconds == 0 {
            OpStep::Abort {
                error: RadarError::DeviceError { fault: DeviceFault::ModuleNotReady { seconds } },
            }
        } else {
            OpStep::Continue {
                stage: Stage::PinRead { left: seconds },
                since_ms: now_ms,
                request: Request::ReadPinValue { pin },
            }
        },
        Op::Flash { firmware } => OpStep::Continue {
            stage: Stage::Direct,
            since_ms: now_ms,
            request: Request::Flash { firmware },
        },
    }
}

/// A one-request step and the host's reply to it.
pub open spec fn spec_react_direct(op: Op, reply: Reply) -> OpStep {
    match op {
        Op::Read { .. } => match reply {
            Reply::Word { value } => OpStep::CompleteWith { word: value },
            Reply::Failed => OpStep::Abort { error: RadarError::Bus },
            _ => bad_reply(),
        },
        Op::ReadLevel { .. } => match reply {
            Reply::Level { level: GpioValue::Low } => OpStep::CompleteWith { word: 0 },
            Reply::Level { level: GpioValue::High } => OpStep::CompleteWith { word: 1 },
            Reply::Failed => OpStep::Abort { error: direct_failure(op) },
            _ => bad_reply(),
        },
        Op::WriteBestEffort { .. } => match reply {
            Reply::Done => OpStep::Complete,
            Reply::Failed => OpStep::Complete,
            _ => bad_reply(),
        },
        Op::Write { .. } | Op::Sleep { .. } | Op::SetDirection { .. } | Op::SetValue { .. }
        | Op::Flash { .. } => match reply {
            Reply::Done => OpStep::Complete,
            Reply::Failed => OpStep::Abort { error: direct_failure(op) },
            _ => bad_reply(),
        },
        _ => bad_reply(),
    }
}

/// A `Command` step and the host's reply to it.
///
/// The command register is written only in answer to a status word whose
/// busy bit is clear. A device that reports an error gets reset-module
/// first, once, unless reset-module is the command itself. The busy wait is
/// bounded by a deadline counted from its first status read.
pub open spec fn spec_react_command(
    app: Application,
    code: u32,
    stage: Stage,
    since_ms: u64,
    now_ms: u64,
    reply: Reply,
) -> OpStep {
    match stage {
        Stage::CommandStatus { reset_done } => match reply {
            Reply::Word { value } => if registers::status_busy(value) {
                OpStep::Continue {
                    stage: Stage::CommandPause { reset_done },
                    since_ms,
                    request: Request::Sleep { ms: registers::POLL_INTERVAL_MS },
                }
            } else if app.has_errors(value) && code != registers::CMD_RESET_MODULE
                && !reset_done {
                OpStep::Continue {
                    stage: Stage::CommandReset,
                    since_ms,
                    request: command_write(registers::CMD_RESET_MODULE),
                }
            } else {
                OpStep::Continue {
                    stage: Stage::CommandWrite,
                    since_ms,
                    request: command_write(code),
                }
            },
            Reply::Failed => OpStep::Abort { error: RadarError::Bus },
            _ => bad_reply(),
        },
        Stage::CommandPause { reset_done } => match reply {
            Reply::Done => if elapsed_ms(since_ms, now_ms) < registers::BUSY_TIMEOUT_MS {
                OpStep::Continue {
                    stage: Stage::CommandStatus { reset_done },
                    since_ms,
                    request: status_read(),
                }
            } else {
                OpStep::Abort {
                    error: RadarError::Timeout {
                        operation: crate::error::Operation::BusyWait,
                        timeout_ms: registers::BUSY_TIMEOUT_MS,
                    },
                }
            },
            _ => bad_reply(),
        },
        Stage::CommandReset => match reply {
            Reply::Done => OpStep::Continue {
                stage: Stage::CommandSettle,
                since_ms,
                request: Request::Sleep { ms: app.reset_settle_ms() },
            },
            Reply::Failed => OpStep::Abort { error: RadarError::Bus },
            _ => bad_reply(),
        },
        Stage::CommandSettle => match reply {
            Reply::Done => OpStep::Continue {
                stage: Stage::CommandStatus { reset_done: true },
                since_ms: now_ms,
                request: status_read(),
            },
            _ => bad_reply(),
        },
        Stage::CommandWrite => match reply {
            Reply::Done => OpStep::Complete,
            Reply::Failed => OpStep::Abort { error: RadarError::Bus },
            _ => bad_reply(),
        },
        _ => bad_reply(),
    }
}

/// An `Await` step and the host's reply to it.
///
/// The deadline is counted from the first status read and is not moved by
/// later ones: once it has passed, no further read is made.
pub open spec fn spec_react_await(
    condition: Condition,
    timeout_ms: u64,
    interval_ms: u64,
    stage: Stage,
    since_ms: u64,
    now_ms: u64,
    reply: Reply,
) -> OpStep {
    match stage {
        Stage::PollStatus => match reply {
            Reply::Word { value } => match condition.judge(value) {
                Verdict::Satisfied => OpStep::Complete,
                Verdict::Failed { error } => OpStep::Abort { error },
                Verdict::Pending => OpStep::Continue {
                    stage: Stage::PollPause,
                    since_ms,
                    request: Request::Sleep { ms: interval_ms },
                },
            },
            Reply::Failed => OpStep::Abort { error: RadarError::Bus },
            _ => bad_reply(),
        },
        Stage::PollPause => match reply {
            Reply::Done => if elapsed_ms(since_ms, now_ms) < timeout_ms {
                OpStep::Continue { stage: Stage::PollStatus, since_ms, request: status_read() }
            } else {
                OpStep::Abort {
                    error: RadarError::Timeout { operation: condition.operation(), timeout_ms },
                }
            },
            _ => bad_reply(),
        },
        _ => bad_reply(),
    }
}

/// A `Check` step and the host's reply to it.
pub open spec fn spec_react_check(app: Application, blame: Blame, stage: Stage, reply: Reply) -> OpStep {
    match stage {
        Stage::CheckStatus => match reply {
            Reply::Word { value } => if app.has_errors(value) {
                OpStep::Abort { error: RadarError::DeviceError { fault: blame.fault(value) } }
            } else {
                OpStep::Complete
            },
            Reply::Failed => OpStep::Abort { error: RadarError::Bus },
            _ => bad_reply(),
        },
        _ => bad_reply(),
    }
}

/// A `FreeBootPin` step and the host's reply to it.
///
/// A pin that is exported, or that can be exported, needs nothing more.
/// Otherwise the two SPI devices and the SPI controller are unbound, each
/// as far as that is possible, and the export is tried once more.
pub open spec fn spec_react_boot_pin(pin: u32, stage: Stage, since_ms: u64, reply: Reply) -> OpStep {
    match stage {
        Stage::BootProbe => match reply {
            Reply::Present { exported } => if exported {
                OpStep::Complete
            } else {
                OpStep::Continue {
                    stage: Stage::BootExport,
                    since_ms,
                    request: Request::ExportPin { pin },
                }
            },
            _ => bad_reply(),
        },
        Stage::BootExport => match reply {
            Reply::Done => OpStep::Complete,
            Reply::Failed => OpStep::Continue {
                stage: Stage::BootUnbind { node: SpiNode::Device1 },
                since_ms,
                request: Request::UnbindSpi { node: SpiNode::Device1 },
            },
            _ => bad_reply(),
        },
        Stage::BootUnbind { node } => match reply {
            Reply::Done | Reply::Failed => match node {
                SpiNode::Device1 => OpStep::Continue {
                    stage: Stage::BootUnbind { node: SpiNode::Device3 },
                    since_ms,
                    request: Request::UnbindSpi { node: SpiNode::Device3 },
                },
                SpiNode::Device3 => OpStep::Continue {
                    stage: Stage::BootUnbind { node: SpiNode::Controller },
                    since_ms,
                    request: Request::UnbindSpi { node: SpiNode::Controller },
                },
                SpiNode::Controller => OpStep::Continue {
                    stage: Stage::BootSettle,
                    since_ms,
                    request: Request::Sleep { ms: registers::SPI_UNBIND_SETTLE_MS },
                },
            },
            _ => bad_reply(),
        },
        Stage::BootSettle => match reply {
            Reply::Done => OpStep::Continue {
                stage: Stage::BootRetry,
                since_ms,
                request: Request::ExportPin { pin },
            },
            _ => bad_reply(),
        },
        Stage::BootRetry => match reply {
            Reply::Done => OpStep::Complete,
            Reply::Failed => OpStep::Abort {
                error: RadarError::DeviceError { fault: DeviceFault::BootPinClaimed { pin } },
            },
            _ => bad_reply(),
        },
        _ => bad_reply(),
    }
}

/// An `EnsureExported` step and the host's reply to it. A pin that is
/// exported already is left alone.
pub open spec fn spec_react_export(pin: u32, stage: Stage, since_ms: u64, reply: Reply) -> OpStep {
    match stage {
        Stage::ExportProbe => match reply {
            Reply::Present { exported } => if exported {
                OpStep::Complete
            } else {
                OpStep::Continue {
                    stage: Stage::ExportWrite,
                    since_ms,
                    request: Request::ExportPin { pin },
                }
            },
            _ => bad_reply(),
        },
        Stage::ExportWrite => match reply {
            Reply::Done => OpStep::Continue {
                stage: Stage::ExportSettle,
                since_ms,
                request: Request::Sleep { ms: registers::GPIO_EXPORT_SETTLE_MS },
            },
            Reply::Failed => OpStep::Abort {
                error: RadarError::DeviceError { fault: DeviceFault::GpioExportFailed { pin } },
            },
            _ => bad_reply(),
        },
        Stage::ExportSettle => match reply {
            Reply::Done => OpStep::Complete,
            _ => bad_reply(),
        },
        _ => bad_reply(),
    }
}

/// An `AwaitPinHigh` step and the host's reply to it. A read that fails
/// counts like a low level.
pub open spec fn spec_react_pin_high(
    pin: u32,
    seconds: u32,
    stage: Stage,
    since_ms: u64,
    reply: Reply,
) -> OpStep {
    match stage {
        Stage::PinRead { left } => match reply {
            Reply::Level { level: GpioValue::High } => OpStep::Complete,
            Reply::Level { level: GpioValue::Low } | Reply::Failed => OpStep::Continue {
                stage: Stage::PinPause { left },
                since_ms,
                request: Request::Sleep { ms: 1000 },
            },
            _ => bad_reply(),
        },
        Stage::PinPause { left } => match reply {
            Reply::Done => if left > 1 {
                OpStep::Continue {
                    stage: Stage::PinRead { left: (left - 1) as u32 },
                    since_ms,
                    request: Request::ReadPinValue { pin },
                }
            } else {
                OpStep::Abort {
                    error: RadarError::DeviceError {
                        fault: DeviceFault::ModuleNotReady { seconds },
                    },
                }
            },
            _ => bad_reply(),
        },
        _ => bad_reply(),
    }
}

/// What the step `op`, standing at `stage`, does with the host's reply.
pub open spec fn spec_react(op: Op, stage: Stage, since_ms: u64, now_ms: u64, reply: Reply) -> OpStep {
    match op {
        Op::Command { app, code } => spec_react_command(app, code, stage, since_ms, now_ms, reply),
        Op::Await { condition, timeout_ms, interval_ms } => spec_react_await(
            condition,
            timeout_ms,
            interval_ms,
            stage,
            since_ms,
            now_ms,
            reply,
        ),
        Op::Check { app, blame } => spec_react_check(app, blame, stage, reply),
        Op::FreeBootPin { pin } => spec_react_boot_pin(pin, stage, since_ms, reply),
        Op::EnsureExported { pin } => spec_react_export(pin, stage, since_ms, reply),
        Op::AwaitPinHigh { pin, seconds } => spec_react_pin_high(pin, seconds, stage, since_ms, reply),
        _ => if stage == Stage::Direct {
            spec_react_direct(op, reply)
        } else {
            bad_reply()
        },
    }
}

fn exec_status_read() -> (r: Request)
    ensures
        r == status_read(),
{
    Request::ReadRegister { address: registers::REG_DETECTOR_STATUS }
}

fn exec_command_write(code: u32) -> (r: Request)
    ensures
        r == command_write(code),
{
    Request::WriteRegister { address: registers::REG_COMMAND, value: code }
}

fn exec_bad_reply() -> (r: OpStep)
    ensures
        r == bad_reply(),
{
    OpStep::Abort { error: RadarError::InvalidResponse }
}

fn exec_direct_failure(op: Op) -> (r: RadarError)
    ensures
        r == direct_failure(op),
{
    match op {
        Op::ReadLevel { pin } => RadarError::DeviceError {
            fault: DeviceFault::GpioReadFailed { pin },
        },
        Op::SetDirection { pin, .. } => RadarError::DeviceError {
            fault: DeviceFault::GpioDirectionFailed { pin },
        },
        Op::SetValue { pin, .. } => RadarError::DeviceError {
            fault: DeviceFault::GpioValueFailed { pin },
        },
        Op::Flash { .. } => RadarError::FirmwareError { cause: FirmwareFault::FlashFailed },
        _ => RadarError::Bus,
    }
}

/// Begins a step: its first request, or its failure where it cannot begin.
#[verifier::when_used_as_spec(spec_enter)]
pub fn enter(op: Op, now_ms: u64) -> (r: OpStep)
    ensures
        r == spec_enter(op, now_ms),
{
    match op {
        Op::Write { address, value } => OpStep::Continue {
            stage: Stage::Direct,
            since_ms: now_ms,
            request: Request::WriteRegister { address, value },
        },
        Op::WriteBestEffort { address, value } => OpStep::Continue {
            stage: Stage::Direct,
            since_ms: now_ms,
            request: Request::WriteRegister { address, value },
        },
        Op::Read { address } => OpStep::Continue {
            stage: Stage::Direct,
            since_ms: now_ms,
            request: Request::ReadRegister { address },
        },
        Op::Sleep { ms } => OpStep::Continue {
            stage: Stage::Direct,
            since_ms: now_ms,
            request: Request::Sleep { ms },
        },
        Op::Command { .. } => OpStep::Continue {
            stage: Stage::CommandStatus { reset_done: false },
            since_ms: now_ms,
            request: exec_status_read(),
        },
        Op::Await { .. } => OpStep::Continue {
            stage: Stage::PollStatus,
            since_ms: now_ms,
            request: exec_status_read(),
        },
        Op::Check { .. } => OpStep::Continue {
            stage: Stage::CheckStatus,
            since_ms: now_ms,
            request: exec_status_read(),
        },
        Op::FreeBootPin { pin } => OpStep::Continue {
            stage: Stage::BootProbe,
            since_ms: now_ms,
            request: Request::ProbePin { pin },
        },
        Op::EnsureExported { pin } => OpStep::Continue {
            stage: Stage::ExportProbe,
            since_ms: now_ms,
            request: Request::ProbePin { pin },
        },
        Op::SetDirection { pin, direction } => OpStep::Continue {
            stage: Stage::Direct,
            since_ms: now_ms,
            request: Request::SetPinDirection { pin, direction },
        },
        Op::SetValue { pin, level } => OpStep::Continue {
            stage: Stage::Direct,
            since_ms: now_ms,
            request: Request::SetPinValue { pin, level },
        },
        Op::ReadLevel { pin } => OpStep::Continue {
            stage: Stage::Direct,
            since_ms: now_ms,
            request: Request::ReadPinValue { pin },
        },
        Op::AwaitPinHigh { pin, seconds } => if seconds == 0 {
            OpStep::Abort {
                error: RadarError::DeviceError { fault: DeviceFault::ModuleNotReady { seconds } },
            }
        } else {
            OpStep::Continue {
                stage: Stage::PinRead { left: seconds },
                since_ms: now_ms,
                request: Request::ReadPinValue { pin },
            }
        },
        Op::Flash { firmware } => OpStep::Continue {
            stage: Stage::Direct,
            since_ms: now_ms,
            request: Request::Flash { firmware },
        },
    }
}

#[verifier::when_used_as_spec(spec_react_direct)]
fn react_direct(op: Op, reply: Reply) -> (r: OpStep)
    ensures
        r == spec_react_direct(op, reply),
{
    match op {
        Op::Read { .. } => match reply {
            Reply::Word { value } => OpStep::CompleteWith { word: value },
            Reply::Failed => OpStep::Abort { error: RadarError::Bus },
            _ => exec_bad_reply(),
        },
        Op::ReadLevel { .. } => match reply {
            Reply::Level { level: GpioValue::Low } => OpStep::CompleteWith { word: 0 },
            Reply::Level { level: GpioValue::High } => OpStep::CompleteWith { word: 1 },
            Reply::Failed => OpStep::Abort { error: exec_direct_failure(op) },
            _ => exec_bad_reply(),
        },
        Op::WriteBestEffort { .. } => match reply {
            Reply::Done => OpStep::Complete,
            Reply::Failed => OpStep::Complete,
            _ => exec_bad_reply(),
        },
        Op::Write { .. } | Op::Sleep { .. } | Op::SetDirection { .. } | Op::SetValue { .. }
        | Op::Flash { .. } => match reply {
            Reply::Done => OpStep::Complete,
            Reply::Failed => OpStep::Abort { error: exec_direct_failure(op) },
            _ => exec_bad_reply(),
        },
        _ => exec_bad_reply(),
    }
}

#[verifier::when_used_as_spec(spec_react_command)]
fn react_command(
    app: Application,
    code: u32,
    stage: Stage,
    since_ms: u64,
    now_ms: u64,
    reply: Reply,
) -> (r: OpStep)
    ensures
        r == spec_react_command(app, code, stage, since_ms, now_ms, reply),
{
    match stage {
        Stage::CommandStatus { reset_done } => match reply {
            Reply::Word { value } => if registers::status_busy(value) {
                OpStep::Continue {
                    stage: Stage::CommandPause { reset_done },
                    since_ms,
                    request: Request::Sleep { ms: registers::POLL_INTERVAL_MS },
                }
            } else if app.has_errors(value) && code != registers::CMD_RESET_MODULE
                && !reset_done {
                OpStep::Continue {
                    stage: Stage::CommandReset,
                    since_ms,
                    request: exec_command_write(registers::CMD_RESET_MODULE),
                }
            } else {
                OpStep::Continue {
                    stage: Stage::CommandWrite,
                    since_ms,
                    request: exec_command_write(code),
                }
            },
            Reply::Failed => OpStep::Abort { error: RadarError::Bus },
            _ => exec_bad_reply(),
        },
        Stage::CommandPause { reset_done } => match reply {
            Reply::Done => if elapsed_ms(since_ms, now_ms) < registers::BUSY_TIMEOUT_MS {
                OpStep::Continue {
                    stage: Stage::CommandStatus { reset_done },
                    since_ms,
                    request: exec_status_read(),
                }
            } else {
                OpStep::Abort {
                    error: RadarError::Timeout {
                        operation: crate::error::Operation::BusyWait,
                        timeout_ms: registers::BUSY_TIMEOUT_MS,
                    },
                }
            },
            _ => exec_bad_reply(),
        },
        Stage::CommandReset => match reply {
            Reply::Done => OpStep::Continue {
                stage: Stage::CommandSettle,
                since_ms,
                request: Request::Sleep { ms: app.reset_settle_ms() },
            },
            Reply::Failed => OpStep::Abort { error: RadarError::Bus },
            _ => exec_bad_reply(),
        },
        Stage::CommandSettle => match reply {
            Reply::Done => OpStep::Continue {
                stage: Stage::CommandStatus { reset_done: true },
                since_ms: now_ms,
                request: exec_status_read(),
            },
            _ => exec_bad_reply(),
        },
        Stage::CommandWrite => match reply {
            Reply::Done => OpStep::Complete,
            Reply::Failed => OpStep::Abort { error: RadarError::Bus },
            _ => exec_bad_reply(),
        },
        _ => exec_bad_reply(),
    }
}

#[verifier::when_used_as_spec(spec_react_await)]
fn react_await(
    condition: Condition,
    timeout_ms: u64,
    interval_ms: u64,
    stage: Stage,
    since_ms: u64,
    now_ms: u64,
    reply: Reply,
) -> (r: OpStep)
    ensures
        r == spec_react_await(condition, timeout_ms, interval_ms, stage, since_ms, now_ms, reply),
{
    match stage {
        Stage::PollStatus => match reply {
            Reply::Word { value } => match condition.judge(value) {
                Verdict::Satisfied => OpStep::Complete,
                Verdict::Failed { error } => OpStep::Abort { error },
                Verdict::Pending => OpStep::Continue {
                    stage: Stage::PollPause,
                    since_ms,
                    request: Request::Sleep { ms: interval_ms },
                },
            },
            Reply::Failed => OpStep::Abort { error: RadarError::Bus },
            _ => exec_bad_reply(),
        },
        Stage::PollPause => match reply {
            Reply::Done => if elapsed_ms(since_ms, now_ms) < timeout_ms {
                OpStep::Continue { stage: Stage::PollStatus, since_ms, request: exec_status_read() }
            } else {
                OpStep::Abort {
                    error: RadarError::Timeout { operation: condition.operation(), timeout_ms },
                }
            },
            _ => exec_bad_reply(),
        },
        _ => exec_bad_reply(),
    }
}

#[verifier::when_used_as_spec(spec_react_check)]
fn react_check(app: Application, blame: Blame, stage: Stage, reply: Reply) -> (r: OpStep)
    ensures
        r == spec_react_check(app, blame, stage, reply),
{
    match stage {
        Stage::CheckStatus => match reply {
            Reply::Word { value } => if app.has_errors(value) {
                OpStep::Abort { error: RadarError::DeviceError { fault: blame.fault(value) } }
            } else {
                OpStep::Complete
            },
            Reply::Failed => OpStep::Abort { error: RadarError::Bus },
            _ => exec_bad_reply(),
        },
        _ => exec_bad_reply(),
    }
}

#[verifier::when_used_as_spec(spec_react_boot_pin)]
fn react_boot_pin(pin: u32, stage: Stage, since_ms: u64, reply: Reply) -> (r: OpStep)
    ensures
        r == spec_react_boot_pin(pin, stage, since_ms, reply),
{
    match stage {
        Stage::BootProbe => match reply {
            Reply::Present { exported } => if exported {
                OpStep::Complete
            } else {
                OpStep::Continue {
                    stage: Stage::BootExport,
                    since_ms,
                    request: Request::ExportPin { pin },
                }
            },
            _ => exec_bad_reply(),
        },
        Stage::BootExport => match reply {
            Reply::Done => OpStep::Complete,
            Reply::Failed => OpStep::Continue {
                stage: Stage::BootUnbind { node: SpiNode::Device1 },
                since_ms,
                request: Request::UnbindSpi { node: SpiNode::Device1 },
            },
            _ => exec_bad_reply(),
        },
        Stage::BootUnbind { node } => match reply {
            Reply::Done | Reply::Failed => match node {
                SpiNode::Device1 => OpStep::Continue {
                    stage: Stage::BootUnbind { node: SpiNode::Device3 },
                    since_ms,
                    request: Request::UnbindSpi { node: SpiNode::Device3 },
                },
                SpiNode::Device3 => OpStep::Continue {
                    stage: Stage::BootUnbind { node: SpiNode::Controller },
                    since_ms,
                    request: Request::UnbindSpi { node: SpiNode::Controller },
                },
                SpiNode::Controller => OpStep::Continue {
                    stage: Stage::BootSettle,
                    since_ms,
                    request: Request::Sleep { ms: registers::SPI_UNBIND_SETTLE_MS },
                },
            },
            _ => exec_bad_reply(),
        },
        Stage::BootSettle => match reply {
            Reply::Done => OpStep::Continue {
                stage: Stage::BootRetry,
                since_ms,
                request: Request::ExportPin { pin },
            },
            _ => exec_bad_reply(),
        },
        Stage::BootRetry => match reply {
            Reply::Done => OpStep::Complete,
            Reply::Failed => OpStep::Abort {
                error: RadarError::DeviceError { fault: DeviceFault::BootPinClaimed { pin } },
            },
            _ => exec_bad_reply(),
        },
        _ => exec_bad_reply(),
    }
}

#[verifier::when_used_as_spec(spec_react_export)]
fn react_export(pin: u32, stage: Stage, since_ms: u64, reply: Reply) -> (r: OpStep)
    ensures
        r == spec_react_export(pin, stage, since_ms, reply),
{
    match stage {
        Stage::ExportProbe => match reply {
            Reply::Present { exported } => if exported {
                OpStep::Complete
            } else {
                OpStep::Continue {
                    stage: Stage::ExportWrite,
                    since_ms,
                    request: Request::ExportPin { pin },
                }
            },
            _ => exec_bad_reply(),
        },
        Stage::ExportWrite => match reply {
            Reply::Done => OpStep::Continue {
                stage: Stage::ExportSettle,
                since_ms,
                request: Request::Sleep { ms: registers::GPIO_EXPORT_SETTLE_MS },
            },
            Reply::Failed => OpStep::Abort {
                error: RadarError::DeviceError { fault: DeviceFault::GpioExportFailed { pin } },
            },
            _ => exec_bad_reply(),
        },
        Stage::ExportSettle => match reply {
            Reply::Done => OpStep::Complete,
            _ => exec_bad_reply(),
        },
        _ => exec_bad_reply(),
    }
}

#[verifier::when_used_as_spec(spec_react_pin_high)]
fn react_pin_high(
    pin: u32,
    seconds: u32,
    stage: Stage,
    since_ms: u64,
    reply: Reply,
) -> (r: OpStep)
    ensures
        r == spec_react_pin_high(pin, seconds, stage, since_ms, reply),
{
    match stage {
        Stage::PinRead { left } => match reply {
            Reply::Level { level: GpioValue::High } => OpStep::Complete,
            Reply::Level { level: GpioValue::Low } | Reply::Failed => OpStep::Continue {
                stage: Stage::PinPause { left },
                since_ms,
                request: Request::Sleep { ms: 1000 },
            },
            _ => exec_bad_reply(),
        },
        Stage::PinPause { left } => match reply {
            Reply::Done => if left > 1 {
                OpStep::Continue {
                    stage: Stage::PinRead { left: left - 1 },
                    since_ms,
                    request: Request::ReadPinValue { pin },
                }
            } else {
                OpStep::Abort {
                    error: RadarError::DeviceError {
                        fault: DeviceFault::ModuleNotReady { seconds },
                    },
                }
            },
            _ => exec_bad_reply(),
        },
        _ => exec_bad_reply(),
    }
}

/// Continues the step `op`, standing at `stage`, with the host's reply.
#[verifier::when_used_as_spec(spec_react)]
pub fn react(op: Op, stage: Stage, since_ms: u64, now_ms: u64, reply: Reply) -> (r: OpStep)
    ensures
        r == spec_react(op, stage, since_ms, now_ms, reply),
{
    match op {
        Op::Command { app, code } => react_command(app, code, stage, since_ms, now_ms, reply),
        Op::Await { condition, timeout_ms, interval_ms } => react_await(
            condition,
            timeout_ms,
            interval_ms,
            stage,
            since_ms,
            now_ms,
            reply,
        ),
        Op::Check { app, blame } => react_check(app, blame, stage, reply),
        Op::FreeBootPin { pin } => react_boot_pin(pin, stage, since_ms, reply),
        Op::EnsureExported { pin } => react_export(pin, stage, since_ms, reply),
        Op::AwaitPinHigh { pin, seconds } => react_pin_high(pin, seconds, stage, since_ms, reply),
        _ => if stage == Stage::Direct {
            react_direct(op, reply)
        } else {
            exec_bad_reply()
        },
    }
}

/// Busy discipline. Whenever a `Command` step writes the command register,
/// be it the command or the reset before it, it does so in answer to a
/// status word whose busy bit is clear.
pub proof fn lemma_command_waits_for_idle(
    app: Application,
    code: u32,
    stage: Stage,
    since_ms: u64,
    now_ms: u64,
    reply: Reply,
)
    requires
        spec_react_command(app, code, stage, since_ms, now_ms, reply) matches OpStep::Continue {
            request: Request::WriteRegister { .. },
            ..
        },
    ensures
        reply matches Reply::Word { value } && !registers::status_busy(value),
{
}

/// Error discipline. A command other than reset-module is written on a
/// status word that shows an error only after the module has been reset.
pub proof fn lemma_command_resets_on_error(
    app: Application,
    code: u32,
    reset_done: bool,
    since_ms: u64,
    now_ms: u64,
    status: u32,
)
    requires
        code != registers::CMD_RESET_MODULE,
        app.has_errors(status),
        !registers::status_busy(status),
    ensures
        spec_react_command(
            app,
            code,
            Stage::CommandStatus { reset_done },
            since_ms,
            now_ms,
            Reply::Word { value: status },
        ) == (if reset_done {
            OpStep::Continue {
                stage: Stage::CommandWrite,
                since_ms,
                request: command_write(code),
            }
        } else {
            OpStep::Continue {
                stage: Stage::CommandReset,
                since_ms,
                request: command_write(registers::CMD_RESET_MODULE),
            }
        }),
{
}

/// A poll ends well only on a status word that satisfies its condition.
pub proof fn lemma_await_completes_when_satisfied(
    condition: Condition,
    timeout_ms: u64,
    interval_ms: u64,
    stage: Stage,
    since_ms: u64,
    now_ms: u64,
    reply: Reply,
)
    requires
        spec_react_await(condition, timeout_ms, interval_ms, stage, since_ms, now_ms, reply)
            == OpStep::Complete,
    ensures
        reply matches Reply::Word { value } && condition.judge(value) == Verdict::Satisfied,
{
}

/// Hard deadline. A poll whose deadline has passed makes no further read:
/// it ends with a timeout that names the wait and its bound.
pub proof fn lemma_await_deadline(
    condition: Condition,
    timeout_ms: u64,
    interval_ms: u64,
    since_ms: u64,
    now_ms: u64,
)
    requires
        elapsed_ms(since_ms, now_ms) >= timeout_ms,
    ensures
        spec_react_await(
            condition,
            timeout_ms,
            interval_ms,
            Stage::PollPause,
            since_ms,
            now_ms,
            Reply::Done,
        ) == (OpStep::Abort {
            error: RadarError::Timeout { operation: condition.operation(), timeout_ms },
        }),
{
}

/// The deadline of a poll is counted from its start: no reply moves it.
pub proof fn lemma_await_keeps_deadline(
    condition: Condition,
    timeout_ms: u64,
    interval_ms: u64,
    stage: Stage,
    since_ms: u64,
    now_ms: u64,
    reply: Reply,
)
    ensures
        spec_react_await(condition, timeout_ms, interval_ms, stage, since_ms, now_ms, reply)
            matches OpStep::Continue { since_ms: kept, .. } ==> kept == since_ms,
{
}

/// A status word on which a measurement may be read shows neither the busy
/// bit nor any error bit.
pub proof fn lemma_ready_status_is_clean(status: u32)
    requires
        Condition::MeasurementReady.judge(status) == Verdict::Satisfied,
    ensures
        !registers::status_busy(status),
        !Application::Distance.has_errors(status),
        status & registers::STATUS_MEASUREMENT_READY != 0,
{
}

/// A check lets a sequence go on only on a status word without an error
/// bit of its application.
pub proof fn lemma_check_passes_clean_status(
    app: Application,
    blame: Blame,
    stage: Stage,
    reply: Reply,
)
    requires
        spec_react_check(app, blame, stage, reply) == OpStep::Complete,
    ensures
        reply matches Reply::Word { value } && !app.has_errors(value),
{
}

/// A pin that the host reports as exported is never exported again.
pub proof fn lemma_exported_pin_is_left_alone(pin: u32, stage: Stage, since_ms: u64)
    ensures
        spec_react_export(pin, stage, since_ms, Reply::Present { exported: true }) != (
        OpStep::Continue {
            stage: Stage::ExportWrite,
            since_ms,
            request: Request::ExportPin { pin },
        }),
        spec_react_export(pin, Stage::ExportProbe, since_ms, Reply::Present { exported: true })
            == OpStep::Complete,
{
}

/// The register file after one step that writes.
pub open spec fn written_by(op: Op, registers: Map<u16, u32>) -> Map<u16, u32> {
    match op {
        Op::Write { address, value } => registers.insert(address, value),
        Op::WriteBestEffort { address, value } => registers.insert(address, value),
        _ => registers,
    }
}

/// The register file after every write of a sequence has reached the
/// module, in order.
pub open spec fn written(ops: Seq<Op>, registers: Map<u16, u32>) -> Map<u16, u32>
    decreases ops.len(),
{
    if ops.len() == 0 {
        registers
    } else {
        written_by(ops.last(), written(ops.drop_last(), registers))
    }
}

/// Whether a step writes the command register without reading the status
/// first.
pub open spec fn writes_command_unchecked(op: Op) -> bool {
    match op {
        Op::Write { address, .. } => address == registers::REG_COMMAND,
        Op::WriteBestEffort { address, .. } => address == registers::REG_COMMAND,
        _ => false,
    }
}

/// Whether a sequence issues its commands under the busy/error discipline
/// only.
pub open spec fn disciplined(ops: Seq<Op>) -> bool {
    forall|i: int| 0 <= i < ops.len() ==> !writes_command_unchecked(#[trigger] ops[i])
}

} // verus!
