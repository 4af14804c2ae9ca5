//! The four control pins of the module and their sequences.
//!
//! The reset pin is active low. The boot-select pin decides what the
//! module's MCU starts after a reset: low starts the application, high the
//! bootloader. The wake pin is held high throughout.

use vstd::prelude::*;
use vstd::string::StringSliceAdditionalSpecFns;
use crate::error::DeviceFault;
use crate::error::RadarError;
use crate::host::Reply;
use crate::ops::Op;
use crate::outcome::Outcome;
use crate::outcome::Step;
use crate::registers;
use crate::runner::Progress;
use crate::runner::Runner;
use crate::runner::RunnerState;

verus! {

/// The pins of the module, by their GPIO numbers.
#[derive(Clone, Copy, Debug, PartialEq, Eq, Structural)]
pub struct XM125GpioPins {
    /// Reset, active low.
    pub reset: u32,
    /// The module's interrupt: high when the module is ready.
    pub mcu_interrupt: u32,
    pub wake_up: u32,
    /// Boot select.
    pub boot: u32,
}

impl XM125GpioPins {
    /// The pins of the i.MX8MM carrier board.
    pub open spec fn spec_default() -> XM125GpioPins {
        XM125GpioPins { reset: 124, mcu_interrupt: 125, wake_up: 139, boot: 141 }
    }
}

impl Default for XM125GpioPins {
    fn default() -> (pins: XM125GpioPins)
        ensures
            pins == XM125GpioPins::spec_default(),
    {
        XM125GpioPins { reset: 124, mcu_interrupt: 125, wake_up: 139, boot: 141 }
    }
}

/// Direction of a pin.
#[derive(Clone, Copy, Debug, PartialEq, Eq, Structural)]
pub enum GpioDirection {
    Input,
    Output,
}

impl GpioDirection {
    /// The word that sets this direction: `in` or `out`.
    pub fn to_string(&self) -> (text: String)
        ensures
            text@ == (match *self {
                GpioDirection::Input => "in"@,
                GpioDirection::Output => "out"@,
            }),
    {
        match self {
            GpioDirection::Input => String::from_str("in"),
            GpioDirection::Output => String::from_str("out"),
        }
    }
}

/// Level of a pin.
#[derive(Clone, Copy, Debug, PartialEq, Eq, Structural)]
pub enum GpioValue {
    Low,
    High,
}

impl GpioValue {
    /// The digit that sets this level: `0` or `1`.
    pub fn to_string(&self) -> (text: String)
        ensures
            text@ == (match *self {
                GpioValue::Low => "0"@,
                GpioValue::High => "1"@,
            }),
    {
        match self {
            GpioValue::Low => String::from_str("0"),
            GpioValue::High => String::from_str("1"),
        }
    }

    /// The level that the text of a pin's value file stands for, once the
    /// blanks around it are removed: `0` is low, `1` is high, anything else
    /// is no level.
    pub fn from_text(text: &str) -> (level: Option<GpioValue>)
        ensures
            level == (if text.spec_bytes() == seq![48u8] {
                Some(GpioValue::Low)
            } else if text.spec_bytes() == seq![49u8] {
                Some(GpioValue::High)
            } else {
                None
            }),
    {
        let bytes = text.as_bytes();
        if bytes.len() == 1 && bytes[0] == 48 {
            assert(bytes@ =~= seq![48u8]);
            Some(GpioValue::Low)
        } else if bytes.len() == 1 && bytes[0] == 49 {
            assert(bytes@ =~= seq![49u8]);
            Some(GpioValue::High)
        } else {
            assert(bytes@ != seq![48u8] && bytes@ != seq![49u8]) by {
                if bytes@.len() == 1 {
                    assert(seq![48u8][0] == 48u8);
                    assert(seq![49u8][0] == 49u8);
                }
            }
            None
        }
    }

    /// The level that a word of a sequence's result stands for: 0 is low,
    /// anything else high.
    #[verifier::allow_in_spec]
    pub fn from_word(word: u32) -> GpioValue
        returns
            (if word == 0 {
                GpioValue::Low
            } else {
                GpioValue::High
            }),
    {
        if word == 0 {
            GpioValue::Low
        } else {
            GpioValue::High
        }
    }
}

/// A pin driven to a level.
pub open spec fn set(pin: u32, level: GpioValue) -> Op {
    Op::SetValue { pin, level }
}

/// A pause.
pub open spec fn pause(ms: u64) -> Op {
    Op::Sleep { ms }
}

/// The sequence that makes the four pins usable: the boot-select pin is
/// freed where the platform needs that, every pin is exported unless it is
/// exported already, and every pin gets its direction.
pub open spec fn initialize_script(pins: XM125GpioPins, free_boot_pin: bool) -> Seq<Op> {
    (if free_boot_pin {
        seq![Op::FreeBootPin { pin: pins.boot }]
    } else {
        Seq::<Op>::empty()
    }) + seq![
        Op::EnsureExported { pin: pins.reset },
        Op::EnsureExported { pin: pins.mcu_interrupt },
        Op::EnsureExported { pin: pins.wake_up },
        Op::EnsureExported { pin: pins.boot },
        Op::SetDirection { pin: pins.reset, direction: GpioDirection::Output },
        Op::SetDirection { pin: pins.mcu_interrupt, direction: GpioDirection::Input },
        Op::SetDirection { pin: pins.wake_up, direction: GpioDirection::Output },
        Op::SetDirection { pin: pins.boot, direction: GpioDirection::Output },
    ]
}

/// Boot select at `boot`, wake high: the mode the next reset starts.
pub open spec fn mode_script(pins: XM125GpioPins, boot: GpioValue) -> Seq<Op> {
    seq![set(pins.boot, boot), set(pins.wake_up, GpioValue::High)]
}

/// The reset pulse: reset low for 10 ms, then high; 100 ms for the
/// application to start; wake high again; another 100 ms.
pub open spec fn pulse_script(pins: XM125GpioPins) -> Seq<Op> {
    seq![
        set(pins.reset, GpioValue::Low),
        pause(registers::RESET_PULSE_MS),
        set(pins.reset, GpioValue::High),
        pause(registers::RESET_RELEASE_MS),
        set(pins.wake_up, GpioValue::High),
        pause(registers::WAKE_SETTLE_MS),
    ]
}

/// A reset into the mode that `boot` selects: the mode is set, the pins
/// settle for 10 ms, then the reset pulse runs.
pub open spec fn reset_script(pins: XM125GpioPins, boot: GpioValue) -> Seq<Op> {
    mode_script(pins, boot) + seq![pause(registers::GPIO_SETTLE_MS)] + pulse_script(pins)
}

/// Boot select high for half a second, then low for half a second.
pub open spec fn boot_test_script(pins: XM125GpioPins) -> Seq<Op> {
    seq![
        set(pins.boot, GpioValue::High),
        pause(registers::BOOT_TEST_HOLD_MS),
        set(pins.boot, GpioValue::Low),
        pause(registers::BOOT_TEST_HOLD_MS),
    ]
}

/// The two reset sequences differ in the level of boot select and in
/// nothing else.
pub proof fn lemma_resets_differ_in_boot_level(pins: XM125GpioPins)
    ensures
        reset_script(pins, GpioValue::Low).len() == reset_script(pins, GpioValue::High).len(),
        reset_script(pins, GpioValue::Low)[0] == set(pins.boot, GpioValue::Low),
        reset_script(pins, GpioValue::High)[0] == set(pins.boot, GpioValue::High),
        forall|i: int|
            1 <= i < reset_script(pins, GpioValue::Low).len() ==> reset_script(
                pins,
                GpioValue::Low,
            )[i] == reset_script(pins, GpioValue::High)[i],
{
}

/// Builds the sequence `initialize_script`.
pub fn build_initialize(pins: XM125GpioPins, free_boot_pin: bool) -> (script: Vec<Op>)
    ensures
        script@ == initialize_script(pins, free_boot_pin),
{
    let mut script: Vec<Op> = Vec::new();
    if free_boot_pin {
        script.push(Op::FreeBootPin { pin: pins.boot });
    }
    script.push(Op::EnsureExported { pin: pins.reset });
    script.push(Op::EnsureExported { pin: pins.mcu_interrupt });
    script.push(Op::EnsureExported { pin: pins.wake_up });
    script.push(Op::EnsureExported { pin: pins.boot });
    script.push(Op::SetDirection { pin: pins.reset, direction: GpioDirection::Output });
    script.push(Op::SetDirection { pin: pins.mcu_interrupt, direction: GpioDirection::Input });
    script.push(Op::SetDirection { pin: pins.wake_up, direction: GpioDirection::Output });
    script.push(Op::SetDirection { pin: pins.boot, direction: GpioDirection::Output });
    assert(script@ =~= initialize_script(pins, free_boot_pin));
    script
}

/// Appends the sequence `reset_script`.
pub fn push_reset(script: &mut Vec<Op>, pins: XM125GpioPins, boot: GpioValue)
    ensures
        final(script)@ == old(script)@ + reset_script(pins, boot),
{
    script.push(Op::SetValue { pin: pins.boot, level: boot });
    script.push(Op::SetValue { pin: pins.wake_up, level: GpioValue::High });
    script.push(Op::Sleep { ms: registers::GPIO_SETTLE_MS });
    script.push(Op::SetValue { pin: pins.reset, level: GpioValue::Low });
    script.push(Op::Sleep { ms: registers::RESET_PULSE_MS });
    script.push(Op::SetValue { pin: pins.reset, level: GpioValue::High });
    script.push(Op::Sleep { ms: registers::RESET_RELEASE_MS });
    script.push(Op::SetValue { pin: pins.wake_up, level: GpioValue::High });
    script.push(Op::Sleep { ms: registers::WAKE_SETTLE_MS });
    assert(script@ =~= old(script)@ + reset_script(pins, boot));
}

/// What the controller is doing.
#[derive(Clone, Copy, Debug, PartialEq, Eq, Structural)]
pub enum GpioTask {
    Idle,
    /// Exporting the pins and setting their directions.
    Initializing,
    /// A sequence without a result.
    Working,
    /// Reading the level of one pin.
    Reading,
}

/// Drives the control pins of one module.
pub struct XM125GpioController {
    pins: XM125GpioPins,
    initialized: bool,
    free_boot_pin: bool,
    task: GpioTask,
    runner: Runner,
}

/// The state of an `XM125GpioController`.
pub struct GpioState {
    pub pins: XM125GpioPins,
    pub initialized: bool,
    /// Whether initialization frees the boot-select pin from the SPI
    /// driver first.
    pub free_boot_pin: bool,
    pub task: GpioTask,
    pub runner: RunnerState,
}

impl GpioState {
    /// A controller that has not been initialized.
    pub open spec fn fresh(pins: XM125GpioPins) -> GpioState {
        GpioState {
            pins,
            initialized: false,
            free_boot_pin: true,
            task: GpioTask::Idle,
            runner: RunnerState::fresh(Seq::empty()),
        }
    }

    /// Begins `script` as the task `task`.
    pub open spec fn launch(self, task: GpioTask, script: Seq<Op>, now_ms: u64) -> (GpioState, Step) {
        let (runner, progress) = RunnerState::fresh(script).start(now_ms);
        match progress {
            Progress::Ask { request } => (GpioState { runner, task, ..self }, Step::Ask { request }),
            Progress::Complete => GpioState { task, ..self }.completed(runner),
            Progress::Failed { error } => (
                GpioState { runner, task: GpioTask::Idle, ..self },
                Step::Failed { error },
            ),
        }
    }

    /// Begins `script` if the controller has been initialized, and fails
    /// without a request if it has not.
    pub open spec fn launch_initialized(self, script: Seq<Op>, now_ms: u64) -> (GpioState, Step) {
        if self.initialized {
            self.launch(GpioTask::Working, script, now_ms)
        } else {
            (
                self,
                Step::Failed {
                    error: RadarError::DeviceError { fault: DeviceFault::GpioNotInitialized },
                },
            )
        }
    }

    /// What follows when the sequence in execution has completed. A
    /// completed initialization makes the controller initialized.
    pub open spec fn completed(self, runner: RunnerState) -> (GpioState, Step) {
        let idle = GpioState { runner, task: GpioTask::Idle, ..self };
        match self.task {
            GpioTask::Initializing => (
                GpioState { initialized: true, ..idle },
                Step::Finished { outcome: Outcome::Done },
            ),
            GpioTask::Reading => if runner.words.len() != 1 {
                (idle, Step::Failed { error: RadarError::InvalidResponse })
            } else {
                (
                    idle,
                    Step::Finished {
                        outcome: Outcome::Level { level: GpioValue::from_word(runner.words[0]) },
                    },
                )
            },
            _ => (idle, Step::Finished { outcome: Outcome::Done }),
        }
    }

    /// The state and the next step after the host's reply.
    pub open spec fn resume(self, now_ms: u64, reply: Reply) -> (GpioState, Step) {
        let (runner, progress) = self.runner.resume(now_ms, reply);
        match progress {
            Progress::Ask { request } => (GpioState { runner, ..self }, Step::Ask { request }),
            Progress::Failed { error } => (
                GpioState { runner, task: GpioTask::Idle, ..self },
                Step::Failed { error },
            ),
            Progress::Complete => self.completed(runner),
        }
    }
}

impl View for XM125GpioController {
    type V = GpioState;

    closed spec fn view(&self) -> GpioState {
        GpioState {
            pins: self.pins,
            initialized: self.initialized,
            free_boot_pin: self.free_boot_pin,
            task: self.task,
            runner: self.runner@,
        }
    }
}

impl XM125GpioController {
    /// A controller for the default pins.
    pub fn new() -> (controller: XM125GpioController)
        ensures
            controller@ == GpioState::fresh(XM125GpioPins::spec_default()),
    {
        XM125GpioController::with_pins(XM125GpioPins::default())
    }

    /// A controller for the given pins.
    pub fn with_pins(pins: XM125GpioPins) -> (controller: XM125GpioController)
        ensures
            controller@ == GpioState::fresh(pins),
    {
        XM125GpioController {
            pins,
            initialized: false,
            free_boot_pin: true,
            task: GpioTask::Idle,
            runner: Runner::new(Vec::new()),
        }
    }

    /// Switches the recovery of the boot-select pin on or off. Platforms
    /// on which no SPI driver claims the pin do without it.
    pub fn set_boot_pin_recovery(&mut self, enabled: bool)
        ensures
            final(self)@ == (GpioState { free_boot_pin: enabled, ..old(self)@ }),
    {
        self.free_boot_pin = enabled;
    }

    /// Whether the pins have been initialized.
    pub fn is_initialized(&self) -> (initialized: bool)
        ensures
            initialized == self@.initialized,
    {
        self.initialized
    }

    /// The pins that the controller drives.
    pub fn pins(&self) -> (pins: &XM125GpioPins)
        ensures
            *pins == self@.pins,
    {
        &self.pins
    }

    fn completed(&mut self) -> (step: Step)
        ensures
            (final(self)@, step) == old(self)@.completed(old(self)@.runner),
    {
        let task = self.task;
        self.task = GpioTask::Idle;
        match task {
            GpioTask::Initializing => {
                self.initialized = true;
                Step::Finished { outcome: Outcome::Done }
            },
            GpioTask::Reading => {
                let words = self.runner.words();
                if words.len() != 1 {
                    Step::Failed { error: RadarError::InvalidResponse }
                } else {
                    Step::Finished {
                        outcome: Outcome::Level { level: GpioValue::from_word(words[0]) },
                    }
                }
            },
            _ => Step::Finished { outcome: Outcome::Done },
        }
    }

    fn launch(&mut self, task: GpioTask, script: Vec<Op>, now_ms: u64) -> (step: Step)
        ensures
            (final(self)@, step) == old(self)@.launch(task, script@, now_ms),
    {
        let mut runner = Runner::new(script);
        let progress = runner.start(now_ms);
        self.runner = runner;
        match progress {
            Progress::Ask { request } => {
                self.task = task;
                Step::Ask { request }
            },
            Progress::Complete => {
                self.task = task;
                self.completed()
            },
            Progress::Failed { error } => {
                self.task = GpioTask::Idle;
                Step::Failed { error }
            },
        }
    }

    fn launch_initialized(&mut self, script: Vec<Op>, now_ms: u64) -> (step: Step)
        ensures
            (final(self)@, step) == old(self)@.launch_initialized(script@, now_ms),
    {
        if self.initialized {
            self.launch(GpioTask::Working, script, now_ms)
        } else {
            Step::Failed { error: RadarError::DeviceError { fault: DeviceFault::GpioNotInitialized } }
        }
    }

    /// Exports the pins and sets their directions. Pins that are exported
    /// already are left as they are.
    pub fn initialize(&mut self, now_ms: u64) -> (step: Step)
        ensures
            (final(self)@, step) == old(self)@.launch(
                GpioTask::Initializing,
                initialize_script(old(self)@.pins, old(self)@.free_boot_pin),
                now_ms,
            ),
    {
        let script = build_initialize(self.pins, self.free_boot_pin);
        self.launch(GpioTask::Initializing, script, now_ms)
    }

    /// Sets the level of a pin.
    pub fn set_gpio_value(&mut self, gpio_num: u32, value: GpioValue, now_ms: u64) -> (step: Step)
        ensures
            (final(self)@, step) == old(self)@.launch_initialized(
                seq![set(gpio_num, value)],
                now_ms,
            ),
    {
        let mut script: Vec<Op> = Vec::new();
        script.push(Op::SetValue { pin: gpio_num, level: value });
        assert(script@ =~= seq![set(gpio_num, value)]);
        self.launch_initialized(script, now_ms)
    }

    /// Reads the level of a pin.
    pub fn get_gpio_value(&mut self, gpio_num: u32, now_ms: u64) -> (step: Step)
        ensures
            (final(self)@, step) == old(self)@.launch(
                GpioTask::Reading,
                seq![Op::ReadLevel { pin: gpio_num }],
                now_ms,
            ),
    {
        let mut script: Vec<Op> = Vec::new();
        script.push(Op::ReadLevel { pin: gpio_num });
        assert(script@ =~= seq![Op::ReadLevel { pin: gpio_num }]);
        self.launch(GpioTask::Reading, script, now_ms)
    }

    /// Resets the module into its application.
    pub fn reset_to_run_mode(&mut self, now_ms: u64) -> (step: Step)
        ensures
            (final(self)@, step) == old(self)@.launch_initialized(
                reset_script(old(self)@.pins, GpioValue::Low),
                now_ms,
            ),
    {
        let mut script: Vec<Op> = Vec::new();
        push_reset(&mut script, self.pins, GpioValue::Low);
        assert(script@ =~= reset_script(self.pins, GpioValue::Low));
        self.launch_initialized(script, now_ms)
    }

    /// Resets the module into its bootloader.
    pub fn reset_to_bootloader_mode(&mut self, now_ms: u64) -> (step: Step)
        ensures
            (final(self)@, step) == old(self)@.launch_initialized(
                reset_script(old(self)@.pins, GpioValue::High),
                now_ms,
            ),
    {
        let mut script: Vec<Op> = Vec::new();
        push_reset(&mut script, self.pins, GpioValue::High);
        assert(script@ =~= reset_script(self.pins, GpioValue::High));
        self.launch_initialized(script, now_ms)
    }

    /// Selects the application for the next reset, without resetting.
    pub fn set_run_mode(&mut self, now_ms: u64) -> (step: Step)
        ensures
            (final(self)@, step) == old(self)@.launch_initialized(
                mode_script(old(self)@.pins, GpioValue::Low),
                now_ms,
            ),
    {
        let mut script: Vec<Op> = Vec::new();
        script.push(Op::SetValue { pin: self.pins.boot, level: GpioValue::Low });
        script.push(Op::SetValue { pin: self.pins.wake_up, level: GpioValue::High });
        assert(script@ =~= mode_script(self.pins, GpioValue::Low));
        self.launch_initialized(script, now_ms)
    }

    /// Selects the bootloader for the next reset, without resetting.
    pub fn set_bootloader_mode(&mut self, now_ms: u64) -> (step: Step)
        ensures
            (final(self)@, step) == old(self)@.launch_initialized(
                mode_script(old(self)@.pins, GpioValue::High),
                now_ms,
            ),
    {
        let mut script: Vec<Op> = Vec::new();
        script.push(Op::SetValue { pin: self.pins.boot, level: GpioValue::High });
        script.push(Op::SetValue { pin: self.pins.wake_up, level: GpioValue::High });
        assert(script@ =~= mode_script(self.pins, GpioValue::High));
        self.launch_initialized(script, now_ms)
    }

    /// The status of the four pins in words, from their levels as far as
    /// they could be read.
    pub fn show_gpio_status(
        &self,
        reset: Option<GpioValue>,
        mcu_interrupt: Option<GpioValue>,
        wake_up: Option<GpioValue>,
        boot: Option<GpioValue>,
    ) -> (text: String)
        ensures
            text@ == crate::report::spec_gpio_status(
                self@.pins,
                reset,
                mcu_interrupt,
                wake_up,
                boot,
            ),
    {
        crate::report::gpio_status(&self.pins, reset, mcu_interrupt, wake_up, boot)
    }

    /// Waits until the module's interrupt pin is high, reading it once a
    /// second, `timeout_seconds` times at most.
    pub fn wait_for_module_ready(&mut self, timeout_seconds: u32, now_ms: u64) -> (step: Step)
        ensures
            (final(self)@, step) == old(self)@.launch(
                GpioTask::Working,
                seq![Op::AwaitPinHigh { pin: old(self)@.pins.mcu_interrupt, seconds: timeout_seconds }],
                now_ms,
            ),
    {
        let mut script: Vec<Op> = Vec::new();
        script.push(Op::AwaitPinHigh { pin: self.pins.mcu_interrupt, seconds: timeout_seconds });
        assert(script@ =~= seq![
            Op::AwaitPinHigh { pin: self.pins.mcu_interrupt, seconds: timeout_seconds },
        ]);
        self.launch(GpioTask::Working, script, now_ms)
    }

    /// Drives boot select high and low again, half a second each.
    pub fn test_bootloader_control(&mut self, now_ms: u64) -> (step: Step)
        ensures
            (final(self)@, step) == old(self)@.launch_initialized(
                boot_test_script(old(self)@.pins),
                now_ms,
            ),
    {
        let mut script: Vec<Op> = Vec::new();
        script.push(Op::SetValue { pin: self.pins.boot, level: GpioValue::High });
        script.push(Op::Sleep { ms: registers::BOOT_TEST_HOLD_MS });
        script.push(Op::SetValue { pin: self.pins.boot, level: GpioValue::Low });
        script.push(Op::Sleep { ms: registers::BOOT_TEST_HOLD_MS });
        assert(script@ =~= boot_test_script(self.pins));
        self.launch_initialized(script, now_ms)
    }

    /// Takes the host's reply to the outstanding request and returns what
    /// the sequence in progress wants next, or how it ended.
    pub fn resume(&mut self, now_ms: u64, reply: Reply) -> (step: Step)
        ensures
            (final(self)@, step) == old(self)@.resume(now_ms, reply),
    {
        let progress = self.runner.resume(now_ms, reply);
        match progress {
            Progress::Ask { request } => Step::Ask { request },
            Progress::Failed { error } => {
                self.task = GpioTask::Idle;
                Step::Failed { error }
            },
            Progress::Complete => self.completed(),
        }
    }
}

impl Default for XM125GpioController {
    fn default() -> (controller: XM125GpioController)
        ensures
            controller@ == GpioState::fresh(XM125GpioPins::spec_default()),
    {
        XM125GpioController::new()
    }
}

} // verus!
