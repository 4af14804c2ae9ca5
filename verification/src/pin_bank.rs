//! A model of the pins as the kernel presents them, and what the
//! initialization of the controller does to it.

use vstd::prelude::*;
use crate::gpio::initialize_script;
use crate::gpio::GpioDirection;
use crate::gpio::XM125GpioPins;
use crate::host::Reply;
use crate::host::Request;
use crate::host::SpiNode;
use crate::error::DeviceFault;
use crate::error::RadarError;
use crate::ops::Op;
use crate::ops::Stage;
use crate::runner::Progress;
use crate::runner::RunnerState;

verus! {

/// The pins as the kernel presents them.
pub struct PinBank {
    /// The pins that are exported.
    pub exported: Set<u32>,
    /// The directions that have been set.
    pub directions: Map<u32, GpioDirection>,
    /// The pins that the SPI controller holds; they cannot be exported.
    pub claimed: Set<u32>,
}

impl PinBank {
    /// What the bank answers to a request, and what the request does to
    /// it. A pin is exported unless the SPI controller holds it; unbinding
    /// the controller releases what it holds; a direction can be set on an
    /// exported pin only.
    pub open spec fn answer(self, request: Request) -> (PinBank, Reply) {
        match request {
            Request::ProbePin { pin } => (
                self,
                Reply::Present { exported: self.exported.contains(pin) },
            ),
            Request::ExportPin { pin } => if self.claimed.contains(pin) {
                (self, Reply::Failed)
            } else {
                (PinBank { exported: self.exported.insert(pin), ..self }, Reply::Done)
            },
            Request::UnbindSpi { node } => if node == SpiNode::Controller {
                (PinBank { claimed: Set::empty(), ..self }, Reply::Done)
            } else {
                (self, Reply::Done)
            },
            Request::SetPinDirection { pin, direction } => if self.exported.contains(pin) {
                (PinBank { directions: self.directions.insert(pin, direction), ..self }, Reply::Done)
            } else {
                (self, Reply::Failed)
            },
            Request::Sleep { .. } => (self, Reply::Done),
            _ => (self, Reply::Failed),
        }
    }

    /// Whether the four pins are exported.
    pub open spec fn has_exported(self, pins: XM125GpioPins) -> bool {
        &&& self.exported.contains(pins.reset)
        &&& self.exported.contains(pins.mcu_interrupt)
        &&& self.exported.contains(pins.wake_up)
        &&& self.exported.contains(pins.boot)
    }

    /// The bank with the directions of the four pins set.
    pub open spec fn with_directions(self, pins: XM125GpioPins) -> PinBank {
        PinBank {
            directions: self.directions.insert(pins.reset, GpioDirection::Output).insert(
                pins.mcu_interrupt,
                GpioDirection::Input,
            ).insert(pins.wake_up, GpioDirection::Output).insert(
                pins.boot,
                GpioDirection::Output,
            ),
            ..self
        }
    }
}

/// Runs a sequence against the bank: every request is answered by the
/// bank, for `fuel` requests at most.
pub open spec fn drive(state: RunnerState, bank: PinBank, progress: Progress, fuel: nat) -> (
    PinBank,
    Progress,
)
    decreases fuel,
{
    match progress {
        Progress::Ask { request } => if fuel == 0 {
            (bank, progress)
        } else {
            let (answered, reply) = bank.answer(request);
            let (next, following) = state.resume(0, reply);
            drive(next, answered, following, (fuel - 1) as nat)
        },
        _ => (bank, progress),
    }
}

/// Requests that the initialization makes at most.
pub open spec fn initialize_budget() -> nat {
    32
}

/// Initializes the pins on a bank.
pub open spec fn initialize_on(pins: XM125GpioPins, free_boot_pin: bool, bank: PinBank) -> (
    PinBank,
    Progress,
) {
    let (state, progress) = RunnerState::fresh(initialize_script(pins, free_boot_pin)).start(0);
    drive(state, bank, progress, initialize_budget())
}

/// On a bank on which the four pins are exported, the initialization
/// exports nothing, succeeds, and sets the four directions.
#[verifier::rlimit(100)]
#[verifier::spinoff_prover]
pub proof fn lemma_initialize_on_exported(pins: XM125GpioPins, free_boot_pin: bool, bank: PinBank)
    requires
        bank.has_exported(pins),
    ensures
        initialize_on(pins, free_boot_pin, bank) == (
            bank.with_directions(pins),
            Progress::Complete,
        ),
{
    let script = initialize_script(pins, free_boot_pin);
    reveal_with_fuel(drive, 12);
    if free_boot_pin {
        assert(script.len() == 9);
        assert(script[0] == crate::ops::Op::FreeBootPin { pin: pins.boot });
        assert(script[1] == crate::ops::Op::EnsureExported { pin: pins.reset });
        assert(script[2] == crate::ops::Op::EnsureExported { pin: pins.mcu_interrupt });
        assert(script[3] == crate::ops::Op::EnsureExported { pin: pins.wake_up });
        assert(script[4] == crate::ops::Op::EnsureExported { pin: pins.boot });
    } else {
        assert(script.len() == 8);
        assert(script[0] == crate::ops::Op::EnsureExported { pin: pins.reset });
        assert(script[1] == crate::ops::Op::EnsureExported { pin: pins.mcu_interrupt });
        assert(script[2] == crate::ops::Op::EnsureExported { pin: pins.wake_up });
        assert(script[3] == crate::ops::Op::EnsureExported { pin: pins.boot });
    }
}

/// A sequence of pin operations at the step `pc`, standing at `stage`.
pub open spec fn at(ops: Seq<Op>, pc: nat, stage: Stage) -> RunnerState {
    RunnerState { ops, pc, stage, since_ms: 0, words: Seq::empty() }
}

/// Runs a sequence against the bank from its step `pc` on.
pub open spec fn drive_from(ops: Seq<Op>, pc: nat, bank: PinBank, fuel: nat) -> (PinBank, Progress) {
    let (state, progress) = at(ops, 0, Stage::Idle).begin(pc, 0);
    drive(state, bank, progress, fuel)
}

/// What `EnsureExported` does to a bank, the requests it takes, and its
/// failure if it fails.
pub open spec fn ensured(pin: u32, bank: PinBank) -> (PinBank, nat, Option<RadarError>) {
    if bank.exported.contains(pin) {
        (bank, 1, None)
    } else if bank.claimed.contains(pin) {
        (
            bank,
            2,
            Some(RadarError::DeviceError { fault: DeviceFault::GpioExportFailed { pin } }),
        )
    } else {
        (PinBank { exported: bank.exported.insert(pin), ..bank }, 3, None)
    }
}

/// What `FreeBootPin` does to a bank, and the requests it takes. On this
/// model it always succeeds: unbinding the controller releases the pin.
pub open spec fn freed(pin: u32, bank: PinBank) -> (PinBank, nat) {
    if bank.exported.contains(pin) {
        (bank, 1)
    } else if !bank.claimed.contains(pin) {
        (PinBank { exported: bank.exported.insert(pin), ..bank }, 2)
    } else {
        (PinBank { exported: bank.exported.insert(pin), claimed: Set::empty(), ..bank }, 7)
    }
}

/// What `SetDirection` does to a bank, and its failure if it fails.
pub open spec fn directed(pin: u32, direction: GpioDirection, bank: PinBank) -> (
    PinBank,
    Option<RadarError>,
) {
    if bank.exported.contains(pin) {
        (PinBank { directions: bank.directions.insert(pin, direction), ..bank }, None)
    } else {
        (bank, Some(RadarError::DeviceError { fault: DeviceFault::GpioDirectionFailed { pin } }))
    }
}

proof fn lemma_drive_ensure(ops: Seq<Op>, pc: nat, pin: u32, bank: PinBank, fuel: nat)
    requires
        pc < ops.len(),
        ops[pc as int] == (Op::EnsureExported { pin }),
        fuel >= 3,
    ensures
        drive_from(ops, pc, bank, fuel) == (match ensured(pin, bank) {
            (after, used, None) => drive_from(ops, pc + 1, after, (fuel - used) as nat),
            (after, _, Some(error)) => (after, Progress::Failed { error }),
        }),
{
    reveal_with_fuel(drive, 4);
}

proof fn lemma_drive_free(ops: Seq<Op>, pc: nat, pin: u32, bank: PinBank, fuel: nat)
    requires
        pc < ops.len(),
        ops[pc as int] == (Op::FreeBootPin { pin }),
        fuel >= 7,
    ensures
        drive_from(ops, pc, bank, fuel) == drive_from(
            ops,
            pc + 1,
            freed(pin, bank).0,
            (fuel - freed(pin, bank).1) as nat,
        ),
{
    reveal_with_fuel(drive, 8);
}

proof fn lemma_drive_direct(
    ops: Seq<Op>,
    pc: nat,
    pin: u32,
    direction: GpioDirection,
    bank: PinBank,
    fuel: nat,
)
    requires
        pc < ops.len(),
        ops[pc as int] == (Op::SetDirection { pin, direction }),
        fuel >= 1,
    ensures
        drive_from(ops, pc, bank, fuel) == (match directed(pin, direction, bank) {
            (after, None) => drive_from(ops, pc + 1, after, (fuel - 1) as nat),
            (after, Some(error)) => (after, Progress::Failed { error }),
        }),
{
    reveal_with_fuel(drive, 2);
}

/// An initialization that succeeds leaves the four pins exported, with
/// their directions set.
pub proof fn lemma_initialize_exports(pins: XM125GpioPins, free_boot_pin: bool, bank: PinBank)
    requires
        initialize_on(pins, free_boot_pin, bank).1 == Progress::Complete,
    ensures
        initialize_on(pins, free_boot_pin, bank).0.has_exported(pins),
        initialize_on(pins, free_boot_pin, bank).0 == initialize_on(
            pins,
            free_boot_pin,
            bank,
        ).0.with_directions(pins),
{
    let script = initialize_script(pins, free_boot_pin);
    let first = initialize_on(pins, free_boot_pin, bank).0;
    assert(RunnerState::fresh(script) == at(script, 0, Stage::Idle));
    assert(initialize_on(pins, free_boot_pin, bank) == drive_from(script, 0, bank, 32));
    let base: int = if free_boot_pin {
        1
    } else {
        0
    };
    assert(script.len() == base + 8);
    let (b0, f0) = if free_boot_pin {
        assert(script[0] == Op::FreeBootPin { pin: pins.boot });
        lemma_drive_free(script, 0, pins.boot, bank, 32);
        (freed(pins.boot, bank).0, (32 - freed(pins.boot, bank).1) as nat)
    } else {
        (bank, 32nat)
    };
    assert(drive_from(script, 0, bank, 32) == drive_from(script, base as nat, b0, f0));
    assert(script[base] == Op::EnsureExported { pin: pins.reset });
    assert(script[base + 1] == Op::EnsureExported { pin: pins.mcu_interrupt });
    assert(script[base + 2] == Op::EnsureExported { pin: pins.wake_up });
    assert(script[base + 3] == Op::EnsureExported { pin: pins.boot });
    assert(script[base + 4] == Op::SetDirection {
        pin: pins.reset,
        direction: GpioDirection::Output,
    });
    assert(script[base + 5] == Op::SetDirection {
        pin: pins.mcu_interrupt,
        direction: GpioDirection::Input,
    });
    assert(script[base + 6] == Op::SetDirection {
        pin: pins.wake_up,
        direction: GpioDirection::Output,
    });
    assert(script[base + 7] == Op::SetDirection {
        pin: pins.boot,
        direction: GpioDirection::Output,
    });
    lemma_drive_ensure(script, (base) as nat, pins.reset, b0, f0);
    let (b1, u1, e1) = ensured(pins.reset, b0);
    let f1 = (f0 - u1) as nat;
    lemma_drive_ensure(script, (base + 1) as nat, pins.mcu_interrupt, b1, f1);
    let (b2, u2, e2) = ensured(pins.mcu_interrupt, b1);
    let f2 = (f1 - u2) as nat;
    lemma_drive_ensure(script, (base + 2) as nat, pins.wake_up, b2, f2);
    let (b3, u3, e3) = ensured(pins.wake_up, b2);
    let f3 = (f2 - u3) as nat;
    lemma_drive_ensure(script, (base + 3) as nat, pins.boot, b3, f3);
    let (b4, u4, e4) = ensured(pins.boot, b3);
    let f4 = (f3 - u4) as nat;
    lemma_drive_direct(script, (base + 4) as nat, pins.reset, GpioDirection::Output, b4, f4);
    let (b5, e5) = directed(pins.reset, GpioDirection::Output, b4);
    lemma_drive_direct(script, (base + 5) as nat,
        pins.mcu_interrupt,
        GpioDirection::Input,
        b5,
        (f4 - 1) as nat,
    );
    let (b6, e6) = directed(pins.mcu_interrupt, GpioDirection::Input, b5);
    lemma_drive_direct(script, (base + 6) as nat, pins.wake_up, GpioDirection::Output, b6, (f4 - 2) as nat);
    let (b7, e7) = directed(pins.wake_up, GpioDirection::Output, b6);
    lemma_drive_direct(script, (base + 7) as nat, pins.boot, GpioDirection::Output, b7, (f4 - 3) as nat);
    let (b8, e8) = directed(pins.boot, GpioDirection::Output, b7);
    assert(e1 is None && e2 is None && e3 is None && e4 is None);
    assert(e5 is None && e6 is None && e7 is None && e8 is None);
    assert(drive_from(script, (base + 8) as nat, b8, (f4 - 4) as nat) == (b8, Progress::Complete));
    assert(first == b8);
    assert(first.directions =~= first.with_directions(pins).directions);
}

/// Idempotence. An initialization that follows one that succeeded
/// succeeds too, exports nothing, and leaves the pins exactly as the first
/// one left them.
pub proof fn lemma_initialize_is_idempotent(
    pins: XM125GpioPins,
    free_boot_pin: bool,
    bank: PinBank,
)
    requires
        initialize_on(pins, free_boot_pin, bank).1 == Progress::Complete,
    ensures
        initialize_on(pins, free_boot_pin, initialize_on(pins, free_boot_pin, bank).0) == (
            initialize_on(pins, free_boot_pin, bank).0,
            Progress::Complete,
        ),
{
    let first = initialize_on(pins, free_boot_pin, bank).0;
    lemma_initialize_exports(pins, free_boot_pin, bank);
    lemma_initialize_on_exported(pins, free_boot_pin, first);
}

} // verus!
