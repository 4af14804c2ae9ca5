//! Firmware lifecycle: which application runs, and whether to flash.

use vstd::prelude::*;
use crate::error::FirmwareFault;
use crate::error::RadarError;
use crate::gpio::GpioValue;
use crate::gpio::XM125GpioPins;
use crate::host::Reply;
use crate::ops::Op;
use crate::outcome::Outcome;
use crate::outcome::Step;
use crate::registers;
use crate::runner::Progress;
use crate::runner::Runner;
use crate::runner::RunnerState;

verus! {

/// The firmware images the module can run.
#[derive(Clone, Copy, Debug, PartialEq, Eq, Structural)]
pub enum FirmwareType {
    Distance,
    Presence,
    Breathing,
}

impl FirmwareType {
    /// The application id that this firmware reports.
    #[verifier::allow_in_spec]
    pub fn application_id(self) -> u32
        returns
            match self {
                FirmwareType::Distance => 1u32,
                FirmwareType::Presence => 2u32,
                FirmwareType::Breathing => 3u32,
            },
    {
        match self {
            FirmwareType::Distance => 1,
            FirmwareType::Presence => 2,
            FirmwareType::Breathing => 3,
        }
    }

    /// File name of the firmware binary.
    pub fn binary_filename(self) -> (name: &'static str)
        ensures
            name@ == spec_binary_filename(self),
    {
        match self {
            FirmwareType::Distance => "i2c_distance_detector.bin",
            FirmwareType::Presence => "i2c_presence_detector.bin",
            FirmwareType::Breathing => "i2c_ref_app_breathing.bin",
        }
    }

    /// The firmware in words.
    pub fn display_name(self) -> (name: &'static str)
        ensures
            name@ == spec_display_name(self),
    {
        match self {
            FirmwareType::Distance => "Distance Detector",
            FirmwareType::Presence => "Presence Detector",
            FirmwareType::Breathing => "Breathing Monitor",
        }
    }

    /// The firmware that reports `app_id`, if any does.
    #[verifier::allow_in_spec]
    pub fn recognize(app_id: u32) -> Option<FirmwareType>
        returns
            (if app_id == 1 {
                Some(FirmwareType::Distance)
            } else if app_id == 2 {
                Some(FirmwareType::Presence)
            } else if app_id == 3 {
                Some(FirmwareType::Breathing)
            } else {
                None
            }),
    {
        if app_id == 1 {
            Some(FirmwareType::Distance)
        } else if app_id == 2 {
            Some(FirmwareType::Presence)
        } else if app_id == 3 {
            Some(FirmwareType::Breathing)
        } else {
            None
        }
    }

    /// The firmware that reports `app_id`. An unknown id is taken for the
    /// distance detector; where that matters, `recognize` tells the two
    /// apart.
    #[verifier::allow_in_spec]
    pub fn from_app_id(app_id: u32) -> FirmwareType
        returns
            (if app_id == 2 {
                FirmwareType::Presence
            } else if app_id == 3 {
                FirmwareType::Breathing
            } else {
                FirmwareType::Distance
            }),
    {
        if app_id == 2 {
            FirmwareType::Presence
        } else if app_id == 3 {
            FirmwareType::Breathing
        } else {
            FirmwareType::Distance
        }
    }
}

/// Every firmware is recovered from its own application id, and no other
/// id is recognized as a firmware.
pub proof fn lemma_app_id_round_trip(firmware: FirmwareType, app_id: u32)
    ensures
        FirmwareType::from_app_id(firmware.application_id()) == firmware,
        FirmwareType::recognize(firmware.application_id()) == Some(firmware),
        FirmwareType::recognize(app_id) == Some(firmware) <==> app_id
            == firmware.application_id(),
{
}

/// A firmware in words.
pub open spec fn spec_display_name(firmware: FirmwareType) -> Seq<char> {
    match firmware {
        FirmwareType::Distance => "Distance Detector"@,
        FirmwareType::Presence => "Presence Detector"@,
        FirmwareType::Breathing => "Breathing Monitor"@,
    }
}

/// File name of the binary of a firmware.
pub open spec fn spec_binary_filename(firmware: FirmwareType) -> Seq<char> {
    match firmware {
        FirmwareType::Distance => "i2c_distance_detector.bin"@,
        FirmwareType::Presence => "i2c_presence_detector.bin"@,
        FirmwareType::Breathing => "i2c_ref_app_breathing.bin"@,
    }
}

/// Whether the module has to be flashed: it has when it runs another
/// application than the desired one, and also when it runs the desired one
/// but its checksum and that of the binary are both known and differ.
pub open spec fn spec_update_needed(
    current_app_id: u32,
    desired_type: FirmwareType,
    device_checksum: Option<Seq<char>>,
    binary_checksum: Option<Seq<char>>,
) -> bool {
    current_app_id != desired_type.application_id() || (device_checksum is Some
        && binary_checksum is Some && device_checksum->0 != binary_checksum->0)
}

/// The sequence of a firmware update: the module is reset into its
/// bootloader, the flasher runs, the module is reset into run mode, and the
/// application id is read. The read is always made: that the flasher
/// reported success does not mean that the module runs the firmware.
/// `verify` adds settle time before the read and nothing else.
pub open spec fn update_script(pins: XM125GpioPins, firmware: FirmwareType, verify: bool) -> Seq<Op> {
    crate::gpio::initialize_script(pins, true) + crate::gpio::reset_script(pins, GpioValue::High)
        + seq![Op::Flash { firmware }, Op::Sleep { ms: registers::FLASH_SETTLE_MS }]
        + crate::gpio::reset_script(pins, GpioValue::Low) + seq![
        Op::Sleep { ms: registers::RUN_MODE_SETTLE_MS },
    ] + (if verify {
        seq![Op::Sleep { ms: registers::VERIFY_SETTLE_MS }]
    } else {
        Seq::<Op>::empty()
    }) + seq![Op::Read { address: registers::REG_APPLICATION_ID }]
}

/// The sequence that brings the module back into run mode.
pub open spec fn run_mode_script(pins: XM125GpioPins) -> Seq<Op> {
    crate::gpio::initialize_script(pins, true) + crate::gpio::reset_script(pins, GpioValue::Low)
        + seq![Op::Sleep { ms: registers::RUN_MODE_SETTLE_MS }]
}

/// What the manager is doing.
#[derive(Clone, Copy, Debug, PartialEq, Eq, Structural)]
pub enum FirmwareTask {
    Idle,
    /// Flashing `target` and reading the application id afterwards, after
    /// more settle time if `verify`.
    Updating { target: FirmwareType, verify: bool },
    /// A sequence without a result.
    Working,
}

/// Decides on firmware updates and carries them out.
pub struct FirmwareManager {
    firmware_path: String,
    control_script: String,
    i2c_address: u16,
    gpio_pins: XM125GpioPins,
    task: FirmwareTask,
    runner: Runner,
}

/// The state of a `FirmwareManager`.
pub struct FirmwareState {
    /// Directory of the firmware binaries.
    pub firmware_path: Seq<char>,
    pub control_script: Seq<char>,
    pub i2c_address: u16,
    pub gpio_pins: XM125GpioPins,
    pub task: FirmwareTask,
    pub runner: RunnerState,
}

impl FirmwareState {
    pub open spec fn fresh(
        firmware_path: Seq<char>,
        control_script: Seq<char>,
        i2c_address: u16,
    ) -> FirmwareState {
        FirmwareState {
            firmware_path,
            control_script,
            i2c_address,
            gpio_pins: XM125GpioPins::spec_default(),
            task: FirmwareTask::Idle,
            runner: RunnerState::fresh(Seq::empty()),
        }
    }

    /// Begins `script` as the task `task`.
    pub open spec fn launch(self, task: FirmwareTask, script: Seq<Op>, now_ms: u64) -> (
        FirmwareState,
        Step,
    ) {
        let (runner, progress) = RunnerState::fresh(script).start(now_ms);
        match progress {
            Progress::Ask { request } => (
                FirmwareState { runner, task, ..self },
                Step::Ask { request },
            ),
            Progress::Complete => (
                FirmwareState { runner, task: FirmwareTask::Idle, ..self },
                Step::Finished { outcome: Outcome::Done },
            ),
            Progress::Failed { error } => (
                FirmwareState { runner, task: FirmwareTask::Idle, ..self },
                Step::Failed { error },
            ),
        }
    }

    /// How an update ends once the application id has been read:
    /// well only if the module runs the firmware it was flashed with.
    pub open spec fn verdict(target: FirmwareType, words: Seq<u32>) -> Step {
        if words.len() != 1 {
            Step::Failed { error: RadarError::InvalidResponse }
        } else if words[0] == target.application_id() {
            Step::Finished { outcome: Outcome::Done }
        } else {
            Step::Failed {
                error: RadarError::FirmwareError {
                    cause: FirmwareFault::ApplicationMismatch {
                        expected: target.application_id(),
                        actual: words[0],
                    },
                },
            }
        }
    }

    /// The failure of an update. An application id that cannot be read
    /// leaves the update unverified.
    pub open spec fn update_failure(self, error: RadarError) -> RadarError {
        match self.task {
            FirmwareTask::Updating { .. } => if error == RadarError::Bus {
                RadarError::FirmwareError { cause: FirmwareFault::Unverified }
            } else {
                error
            },
            _ => error,
        }
    }

    /// The state and the next step after the host's reply.
    pub open spec fn resume(self, now_ms: u64, reply: Reply) -> (FirmwareState, Step) {
        let (runner, progress) = self.runner.resume(now_ms, reply);
        let idle = FirmwareState { runner, task: FirmwareTask::Idle, ..self };
        match progress {
            Progress::Ask { request } => (FirmwareState { runner, ..self }, Step::Ask { request }),
            Progress::Failed { error } => (idle, Step::Failed { error: self.update_failure(error) }),
            Progress::Complete => match self.task {
                FirmwareTask::Updating { target, .. } => (
                    idle,
                    FirmwareState::verdict(target, runner.words),
                ),
                _ => (idle, Step::Finished { outcome: Outcome::Done }),
            },
        }
    }
}

impl View for FirmwareManager {
    type V = FirmwareState;

    closed spec fn view(&self) -> FirmwareState {
        FirmwareState {
            firmware_path: self.firmware_path@,
            control_script: self.control_script@,
            i2c_address: self.i2c_address,
            gpio_pins: self.gpio_pins,
            task: self.task,
            runner: self.runner@,
        }
    }
}

fn build_update(pins: XM125GpioPins, firmware: FirmwareType, verify: bool) -> (script: Vec<Op>)
    ensures
        script@ == update_script(pins, firmware, verify),
{
    let mut script = crate::gpio::build_initialize(pins, true);
    crate::gpio::push_reset(&mut script, pins, GpioValue::High);
    script.push(Op::Flash { firmware });
    script.push(Op::Sleep { ms: registers::FLASH_SETTLE_MS });
    crate::gpio::push_reset(&mut script, pins, GpioValue::Low);
    script.push(Op::Sleep { ms: registers::RUN_MODE_SETTLE_MS });
    if verify {
        script.push(Op::Sleep { ms: registers::VERIFY_SETTLE_MS });
    }
    script.push(Op::Read { address: registers::REG_APPLICATION_ID });
    assert(script@ =~= update_script(pins, firmware, verify));
    script
}

impl FirmwareManager {
    /// A manager for the binaries under `firmware_path`, for a module at
    /// `i2c_address` with the default pins.
    pub fn new(firmware_path: &str, control_script: &str, i2c_address: u16) -> (manager:
        FirmwareManager)
        ensures
            manager@ == FirmwareState::fresh(firmware_path@, control_script@, i2c_address),
    {
        FirmwareManager {
            firmware_path: String::from_str(firmware_path),
            control_script: String::from_str(control_script),
            i2c_address,
            gpio_pins: XM125GpioPins::default(),
            task: FirmwareTask::Idle,
            runner: Runner::new(Vec::new()),
        }
    }

    /// Uses the given pins for the resets of an update.
    pub fn set_pins(&mut self, pins: XM125GpioPins)
        ensures
            final(self)@ == (FirmwareState { gpio_pins: pins, ..old(self)@ }),
    {
        self.gpio_pins = pins;
    }

    pub fn i2c_address(&self) -> (address: u16)
        ensures
            address == self@.i2c_address,
    {
        self.i2c_address
    }

    pub fn control_script(&self) -> (path: &String)
        ensures
            path@ == self@.control_script,
    {
        &self.control_script
    }

    /// Path of the binary of a firmware: the directory, a slash and the
    /// file name.
    pub fn get_firmware_path(&self, firmware_type: FirmwareType) -> (path: String)
        ensures
            path@ == self@.firmware_path + "/"@ + spec_binary_filename(firmware_type),
    {
        let mut path = self.firmware_path.clone();
        path.append("/");
        path.append(firmware_type.binary_filename());
        path
    }

    /// Whether the module has to be flashed to run `desired_type`. The
    /// checksums are those of the firmware on the module and of the binary
    /// on disk, as far as they could be had.
    pub fn firmware_update_needed(
        &self,
        current_app_id: u32,
        desired_type: FirmwareType,
        device_checksum: Option<&String>,
        binary_checksum: Option<&String>,
    ) -> (needed: bool)
        ensures
            needed == spec_update_needed(
                current_app_id,
                desired_type,
                match device_checksum {
                    Some(text) => Some(text@),
                    None => None,
                },
                match binary_checksum {
                    Some(text) => Some(text@),
                    None => None,
                },
            ),
    {
        if current_app_id != desired_type.application_id() {
            return true;
        }
        match (device_checksum, binary_checksum) {
            (Some(device), Some(binary)) => !(*device == *binary),
            _ => false,
        }
    }

    fn launch(&mut self, task: FirmwareTask, script: Vec<Op>, now_ms: u64) -> (step: Step)
        ensures
            (final(self)@, step) == old(self)@.launch(task, script@, now_ms),
    {
        let mut runner = Runner::new(script);
        let progress = runner.start(now_ms);
        self.runner = runner;
        match progress {
            Progress::Ask { request } => {
                self.task = task;
                Step::Ask { request }
            },
            Progress::Complete => {
                self.task = FirmwareTask::Idle;
                Step::Finished { outcome: Outcome::Done }
            },
            Progress::Failed { error } => {
                self.task = FirmwareTask::Idle;
                Step::Failed { error }
            },
        }
    }

    /// Flashes `firmware_type` and verifies that the module runs it
    /// afterwards.
    pub fn update_firmware(&mut self, firmware_type: FirmwareType, now_ms: u64) -> (step: Step)
        ensures
            (final(self)@, step) == old(self)@.launch(
                FirmwareTask::Updating { target: firmware_type, verify: true },
                update_script(old(self)@.gpio_pins, firmware_type, true),
                now_ms,
            ),
    {
        self.update_firmware_with_verification(firmware_type, true, now_ms)
    }

    /// Flashes `firmware_type`, reads the application id afterwards, and
    /// fails unless it is that of the firmware. With `verify` the module is
    /// given more time to settle before the read.
    pub fn update_firmware_with_verification(
        &mut self,
        firmware_type: FirmwareType,
        verify: bool,
        now_ms: u64,
    ) -> (step: Step)
        ensures
            (final(self)@, step) == old(self)@.launch(
                FirmwareTask::Updating { target: firmware_type, verify },
                update_script(old(self)@.gpio_pins, firmware_type, verify),
                now_ms,
            ),
    {
        let script = build_update(self.gpio_pins, firmware_type, verify);
        self.launch(FirmwareTask::Updating { target: firmware_type, verify }, script, now_ms)
    }

    /// Resets the module into run mode and waits for its application.
    pub fn reset_to_run_mode(&mut self, now_ms: u64) -> (step: Step)
        ensures
            (final(self)@, step) == old(self)@.launch(
                FirmwareTask::Working,
                run_mode_script(old(self)@.gpio_pins),
                now_ms,
            ),
    {
        let mut script = crate::gpio::build_initialize(self.gpio_pins, true);
        crate::gpio::push_reset(&mut script, self.gpio_pins, GpioValue::Low);
        script.push(Op::Sleep { ms: registers::RUN_MODE_SETTLE_MS });
        assert(script@ =~= run_mode_script(self.gpio_pins));
        self.launch(FirmwareTask::Working, script, now_ms)
    }

    /// Takes the host's reply to the outstanding request and returns what
    /// the sequence in progress wants next, or how it ended.
    pub fn resume(&mut self, now_ms: u64, reply: Reply) -> (step: Step)
        ensures
            (final(self)@, step) == old(self)@.resume(now_ms, reply),
    {
        let progress = self.runner.resume(now_ms, reply);
        let task = self.task;
        match progress {
            Progress::Ask { request } => Step::Ask { request },
            Progress::Failed { error } => {
                self.task = FirmwareTask::Idle;
                let reported = match task {
                    FirmwareTask::Updating { .. } => {
                        if error == RadarError::Bus {
                            RadarError::FirmwareError { cause: FirmwareFault::Unverified }
                        } else {
                            error
                        }
                    },
                    _ => error,
                };
                Step::Failed { error: reported }
            },
            Progress::Complete => {
                self.task = FirmwareTask::Idle;
                match task {
                    FirmwareTask::Updating { target, .. } => {
                        let words = self.runner.words();
                        if words.len() != 1 {
                            Step::Failed { error: RadarError::InvalidResponse }
                        } else if words[0] == target.application_id() {
                            Step::Finished { outcome: Outcome::Done }
                        } else {
                            Step::Failed {
                                error: RadarError::FirmwareError {
                                    cause: FirmwareFault::ApplicationMismatch {
                                        expected: target.application_id(),
                                        actual: words[0],
                                    },
                                },
                            }
                        }
                    },
                    _ => Step::Finished { outcome: Outcome::Done },
                }
            },
        }
    }
}

impl Default for FirmwareManager {
    fn default() -> (manager: FirmwareManager)
        ensures
            manager@ == FirmwareState::fresh(
                "/lib/firmware/acconeer"@,
                "/usr/bin/xm125-control.sh"@,
                registers::RUN_MODE_I2C_ADDRESS,
            ),
    {
        FirmwareManager::new(
            "/lib/firmware/acconeer",
            "/usr/bin/xm125-control.sh",
            registers::RUN_MODE_I2C_ADDRESS,
        )
    }
}

/// A module that runs another application than the desired one has to be
/// flashed, whatever the checksums say.
pub proof fn lemma_other_application_needs_update(
    current_app_id: u32,
    desired_type: FirmwareType,
    device_checksum: Option<Seq<char>>,
    binary_checksum: Option<Seq<char>>,
)
    requires
        current_app_id != desired_type.application_id(),
    ensures
        spec_update_needed(current_app_id, desired_type, device_checksum, binary_checksum),
{
}

/// An update never ends well on an application id that is not that of the
/// firmware flashed, with or without the extra settle time: it ends well
/// only when the one register that its sequence has read, the application
/// id, holds the id of the target.
pub proof fn lemma_wrong_application_is_never_success(
    state: FirmwareState,
    target: FirmwareType,
    verify: bool,
    now_ms: u64,
    reply: Reply,
)
    requires
        state.task == (FirmwareTask::Updating { target, verify }),
        state.resume(now_ms, reply).1 is Finished,
    ensures
        state.resume(now_ms, reply).0.runner.words.len() == 1,
        state.resume(now_ms, reply).0.runner.words[0] == target.application_id(),
{
}

/// Every update reads the application id, and reads it last.
pub proof fn lemma_update_reads_the_application_id(
    pins: XM125GpioPins,
    firmware: FirmwareType,
    verify: bool,
)
    ensures
        update_script(pins, firmware, verify).last() == (Op::Read {
            address: registers::REG_APPLICATION_ID,
        }),
{
}

/// The bytes of `Memory programmed`.
pub open spec fn marker_programmed() -> Seq<u8> {
    seq![
        77u8, 101u8, 109u8, 111u8, 114u8, 121u8, 32u8, 112u8, 114u8, 111u8, 103u8, 114u8, 97u8,
        109u8, 109u8, 101u8, 100u8,
    ]
}

/// The bytes of `Starting execution at`.
pub open spec fn marker_started() -> Seq<u8> {
    seq![
        83u8, 116u8, 97u8, 114u8, 116u8, 105u8, 110u8, 103u8, 32u8, 101u8, 120u8, 101u8, 99u8,
        117u8, 116u8, 105u8, 111u8, 110u8, 32u8, 97u8, 116u8,
    ]
}

/// Whether the flasher's output confirms the flash: it does when it says
/// that the memory was programmed, or that execution started.
pub open spec fn spec_flash_confirmed(output: Seq<u8>) -> bool {
    crate::text::spec_contains(output, marker_programmed()) || crate::text::spec_contains(
        output,
        marker_started(),
    )
}

/// Whether the flasher's output confirms the flash.
pub fn flash_confirmed(output: &[u8]) -> (confirmed: bool)
    ensures
        confirmed == spec_flash_confirmed(output@),
{
    let programmed: [u8; 17] = [
        77, 101, 109, 111, 114, 121, 32, 112, 114, 111, 103, 114, 97, 109, 109, 101, 100,
    ];
    let started: [u8; 21] = [
        83, 116, 97, 114, 116, 105, 110, 103, 32, 101, 120, 101, 99, 117, 116, 105, 111, 110, 32,
        97, 116,
    ];
    assert(programmed@ =~= marker_programmed());
    assert(started@ =~= marker_started());
    crate::text::contains(output, programmed.as_slice()) || crate::text::contains(
        output,
        started.as_slice(),
    )
}

/// The bytes of `MD5:`.
pub open spec fn md5_marker() -> Seq<u8> {
    seq![77u8, 68u8, 53u8, 58u8]
}

/// The checksum that the output of a verification reports: what follows
/// the first `MD5:`, up to the end of its line or to the next `MD5:`,
/// without the blanks around it. An output without `MD5:` reports none.
pub open spec fn spec_reported_checksum(output: Seq<u8>) -> Option<Seq<u8>> {
    let at = crate::text::spec_position(output, md5_marker());
    if at >= output.len() {
        None
    } else {
        let after = output.skip(at + 4);
        let line = after.take(crate::decimal::first_index(after, 10));
        Some(crate::text::spec_trim(line.take(crate::text::spec_position(line, md5_marker()))))
    }
}

/// The checksum that the output of a verification reports.
pub fn reported_checksum(output: &[u8]) -> (checksum: Option<Vec<u8>>)
    ensures
        match checksum {
            Some(bytes) => spec_reported_checksum(output@) == Some(bytes@),
            None => spec_reported_checksum(output@) is None,
        },
{
    let marker: [u8; 4] = [77, 68, 53, 58];
    assert(marker@ =~= md5_marker());
    let at = crate::text::position(output, marker.as_slice());
    if at >= output.len() {
        return None;
    }
    let after = vstd::slice::slice_subrange(output, at + 4, output.len());
    assert(after@ =~= output@.skip(at + 4));
    let line_end = crate::decimal::find_first(after, 10);
    let line = vstd::slice::slice_subrange(after, 0, line_end);
    assert(line@ =~= after@.take(line_end as int));
    let stop = crate::text::position(line, marker.as_slice());
    let field = vstd::slice::slice_subrange(line, 0, stop);
    assert(field@ =~= line@.take(stop as int));
    Some(crate::text::trim(field))
}

/// The checksum that `md5sum` printed: the first word of its output.
pub fn printed_checksum(output: &[u8]) -> (checksum: Option<Vec<u8>>)
    ensures
        match checksum {
            Some(bytes) => crate::text::spec_first_word(output@) == Some(bytes@),
            None => crate::text::spec_first_word(output@) is None,
        },
{
    crate::text::first_word(output)
}

} // verus!
