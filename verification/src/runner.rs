//! Running a protocol sequence, one request at a time.

use vstd::prelude::*;
use crate::error::RadarError;
use crate::host::Reply;
use crate::host::Request;
use crate::ops::disciplined;
use crate::ops::enter;
use crate::ops::react;
use crate::ops::Op;
use crate::ops::OpStep;
use crate::ops::Stage;

verus! {

/// What a sequence wants next.
#[derive(Clone, Copy, Debug, PartialEq, Eq, Structural)]
pub enum Progress {
    /// The host is to carry out the request and report back.
    Ask { request: Request },
    /// Every step is done.
    Complete,
    /// A step has failed; the steps after it were not begun.
    Failed { error: RadarError },
}

/// A sequence of steps in execution.
pub struct Runner {
    ops: Vec<Op>,
    pc: usize,
    stage: Stage,
    since_ms: u64,
    words: Vec<u32>,
}

/// The state of a `Runner`: the steps, the step in progress and where it
/// stands, the start of its deadline, and the registers read so far.
pub struct RunnerState {
    pub ops: Seq<Op>,
    pub pc: nat,
    pub stage: Stage,
    pub since_ms: u64,
    pub words: Seq<u32>,
}

impl RunnerState {
    /// A sequence that has not begun.
    pub open spec fn fresh(ops: Seq<Op>) -> RunnerState {
        RunnerState { ops, pc: 0, stage: Stage::Idle, since_ms: 0, words: Seq::empty() }
    }

    /// Whether a request is outstanding.
    pub open spec fn running(self) -> bool {
        self.pc < self.ops.len() && self.stage != Stage::Idle
    }

    /// Whether the sequence has ended, well or not.
    pub open spec fn halted(self) -> bool {
        self.pc >= self.ops.len()
    }

    /// The state after the sequence has ended.
    pub open spec fn halt(self) -> RunnerState {
        RunnerState { pc: self.ops.len(), stage: Stage::Idle, ..self }
    }

    /// Begins the step at `pc`, or ends the sequence if there is none.
    pub open spec fn begin(self, pc: nat, now_ms: u64) -> (RunnerState, Progress) {
        if pc >= self.ops.len() {
            (self.halt(), Progress::Complete)
        } else {
            match enter(self.ops[pc as int], now_ms) {
                OpStep::Continue { stage, since_ms, request } => (
                    RunnerState { pc, stage, since_ms, ..self },
                    Progress::Ask { request },
                ),
                OpStep::Abort { error } => (self.halt(), Progress::Failed { error }),
                _ => (self.halt(), Progress::Failed { error: RadarError::InvalidResponse }),
            }
        }
    }

    /// The first request of the sequence. A sequence that has begun
    /// already fails.
    pub open spec fn start(self, now_ms: u64) -> (RunnerState, Progress) {
        if self.pc == 0 && self.stage == Stage::Idle {
            self.begin(0, now_ms)
        } else {
            (self.halt(), Progress::Failed { error: RadarError::InvalidResponse })
        }
    }

    /// The state and the next request after the host's reply. A sequence
    /// with no request outstanding fails.
    pub open spec fn resume(self, now_ms: u64, reply: Reply) -> (RunnerState, Progress) {
        if !self.running() {
            (self.halt(), Progress::Failed { error: RadarError::InvalidResponse })
        } else {
            match react(self.ops[self.pc as int], self.stage, self.since_ms, now_ms, reply) {
                OpStep::Continue { stage, since_ms, request } => (
                    RunnerState { stage, since_ms, ..self },
                    Progress::Ask { request },
                ),
                OpStep::Complete => self.begin(self.pc + 1, now_ms),
                OpStep::CompleteWith { word } => RunnerState {
                    words: self.words.push(word),
                    ..self
                }.begin(self.pc + 1, now_ms),
                OpStep::Abort { error } => (self.halt(), Progress::Failed { error }),
            }
        }
    }
}

impl View for Runner {
    type V = RunnerState;

    closed spec fn view(&self) -> RunnerState {
        RunnerState {
            ops: self.ops@,
            pc: self.pc as nat,
            stage: self.stage,
            since_ms: self.since_ms,
            words: self.words@,
        }
    }
}

impl Runner {
    /// A runner for `ops`, not yet begun.
    pub fn new(ops: Vec<Op>) -> (r: Runner)
        ensures
            r@ == RunnerState::fresh(ops@),
    {
        Runner { ops, pc: 0, stage: Stage::Idle, since_ms: 0, words: Vec::new() }
    }

    fn halt(&mut self)
        ensures
            final(self)@ == old(self)@.halt(),
    {
        self.pc = self.ops.len();
        self.stage = Stage::Idle;
    }

    fn begin(&mut self, pc: usize, now_ms: u64) -> (p: Progress)
        ensures
            (final(self)@, p) == old(self)@.begin(pc as nat, now_ms),
    {
        if pc >= self.ops.len() {
            self.halt();
            Progress::Complete
        } else {
            match enter(self.ops[pc], now_ms) {
                OpStep::Continue { stage, since_ms, request } => {
                    self.pc = pc;
                    self.stage = stage;
                    self.since_ms = since_ms;
                    Progress::Ask { request }
                },
                OpStep::Abort { error } => {
                    self.halt();
                    Progress::Failed { error }
                },
                _ => {
                    self.halt();
                    Progress::Failed { error: RadarError::InvalidResponse }
                },
            }
        }
    }

    /// Begins the sequence and returns its first request.
    pub fn start(&mut self, now_ms: u64) -> (p: Progress)
        ensures
            (final(self)@, p) == old(self)@.start(now_ms),
    {
        if self.pc == 0 && self.stage == Stage::Idle {
            self.begin(0, now_ms)
        } else {
            self.halt();
            Progress::Failed { error: RadarError::InvalidResponse }
        }
    }

    /// Takes the host's reply to the outstanding request and returns what
    /// the sequence wants next.
    pub fn resume(&mut self, now_ms: u64, reply: Reply) -> (p: Progress)
        ensures
            (final(self)@, p) == old(self)@.resume(now_ms, reply),
    {
        if !(self.pc < self.ops.len() && self.stage != Stage::Idle) {
            self.halt();
            Progress::Failed { error: RadarError::InvalidResponse }
        } else {
            match react(self.ops[self.pc], self.stage, self.since_ms, now_ms, reply) {
                OpStep::Continue { stage, since_ms, request } => {
                    self.stage = stage;
                    self.since_ms = since_ms;
                    Progress::Ask { request }
                },
                OpStep::Complete => {
                    let next = self.pc + 1;
                    self.begin(next, now_ms)
                },
                OpStep::CompleteWith { word } => {
                    self.words.push(word);
                    let next = self.pc + 1;
                    self.begin(next, now_ms)
                },
                OpStep::Abort { error } => {
                    self.halt();
                    Progress::Failed { error }
                },
            }
        }
    }

    /// The registers read so far, in the order of their steps.
    pub fn words(&self) -> (w: &Vec<u32>)
        ensures
            w@ == self@.words,
    {
        &self.words
    }

    /// Whether a request is outstanding.
    pub fn is_running(&self) -> (r: bool)
        ensures
            r == self@.running(),
    {
        self.pc < self.ops.len() && self.stage != Stage::Idle
    }
}

/// Busy discipline of a whole sequence. In a sequence that issues its
/// commands under the discipline only, every write of the command
/// register is made in answer to a status word whose busy bit is clear.
pub proof fn lemma_commands_wait_for_idle(state: RunnerState, now_ms: u64, reply: Reply, value: u32)
    requires
        disciplined(state.ops),
        state.resume(now_ms, reply).1 == (Progress::Ask {
            request: Request::WriteRegister { address: crate::registers::REG_COMMAND, value },
        }),
    ensures
        reply matches Reply::Word { value: status } && !crate::registers::status_busy(status),
{
    let op = state.ops[state.pc as int];
    assert(!crate::ops::writes_command_unchecked(op));
    if state.pc + 1 < state.ops.len() {
        assert(!crate::ops::writes_command_unchecked(state.ops[state.pc as int + 1]));
    }
    match op {
        Op::Command { app, code } => {
            let step = crate::ops::spec_react_command(
                app,
                code,
                state.stage,
                state.since_ms,
                now_ms,
                reply,
            );
            if step is Continue {
                crate::ops::lemma_command_waits_for_idle(
                    app,
                    code,
                    state.stage,
                    state.since_ms,
                    now_ms,
                    reply,
                );
            }
        },
        _ => {},
    }
}

/// A sequence that issues its commands under the discipline only does not
/// begin with a write of the command register.
pub proof fn lemma_start_reads_first(state: RunnerState, now_ms: u64, value: u32)
    requires
        disciplined(state.ops),
    ensures
        state.start(now_ms).1 != (Progress::Ask {
            request: Request::WriteRegister { address: crate::registers::REG_COMMAND, value },
        }),
{
    if state.ops.len() > 0 {
        assert(!crate::ops::writes_command_unchecked(state.ops[0]));
    }
}

} // verus!
