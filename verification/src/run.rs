//! A run as a state machine: what to do next, given how the last action went.
use crate::error::Error;
use crate::material::{check_lengths, length_fault};
use crate::params::{Direction, FileKind, Params, Slot};
use crate::sizing::{fit, fit_to, padded, padded_len, zeroed, zeros};
use vstd::prelude::*;

verus! {

/// Where a run stands: which action's report it is waiting for, or how it
/// ended.
#[derive(Clone, Copy, Debug, PartialEq, Eq, Structural)]
pub enum Phase {
    ReadingInput,
    ReadingKey,
    GeneratingKey,
    ReadingIv,
    GeneratingIv,
    Transforming,
    WritingKey,
    WritingIv,
    WritingOutput,
    Finished,
    Failed(Error),
}

/// How the action last handed out went.
#[derive(Debug, PartialEq, Eq)]
pub enum Report {
    /// It succeeded and gave these bytes: the file's contents, the random
    /// bytes, or the scratch buffer as the cipher left it. A write gives none.
    Done(Vec<u8>),
    /// It failed.
    Failed,
}

/// What the caller is to do next.
#[derive(Debug, PartialEq, Eq)]
pub enum Action {
    /// Read the whole of this file.
    Read(FileKind),
    /// Draw `len` random bytes for this slot.
    Generate { slot: Slot, len: usize },
    /// Bind the cipher to `key` and `iv` and let it transform `input` into
    /// `scratch`.
    Transform { key: Vec<u8>, iv: Vec<u8>, input: Vec<u8>, scratch: Vec<u8> },
    /// Write these bytes to this file.
    Write { file: FileKind, bytes: Vec<u8> },
    /// Nothing more: the run has succeeded.
    Finish,
    /// Nothing more: the run has failed.
    Fail(Error),
}

/// A run in progress.
pub struct Run {
    params: Params,
    direction: Direction,
    phase: Phase,
    input: Vec<u8>,
    input_len: usize,
    key: Vec<u8>,
    iv: Vec<u8>,
    output: Vec<u8>,
}

/// A report, as contracts see it.
pub enum ReportView {
    Done(Seq<u8>),
    Failed,
}

/// An action, as contracts see it.
pub enum ActionView {
    Read(FileKind),
    Generate { slot: Slot, len: usize },
    Transform { key: Seq<u8>, iv: Seq<u8>, input: Seq<u8>, scratch: Seq<u8> },
    Write { file: FileKind, bytes: Seq<u8> },
    Finish,
    Fail(Error),
}

/// A run, as contracts see it.
pub struct RunView {
    pub params: Params,
    pub direction: Direction,
    pub phase: Phase,
    /// The input, from its arrival until the cipher takes it.
    pub input: Seq<u8>,
    /// The length of the input that the cipher took.
    pub input_len: nat,
    /// The key, from its arrival until it is written back.
    pub key: Seq<u8>,
    /// The IV, from its arrival until it is written back.
    pub iv: Seq<u8>,
    /// The output, from the cipher's return until it is written.
    pub output: Seq<u8>,
}

impl View for Report {
    type V = ReportView;

    open spec fn view(&self) -> ReportView {
        match self {
            Report::Done(bytes) => ReportView::Done(bytes@),
            Report::Failed => ReportView::Failed,
        }
    }
}

impl View for Action {
    type V = ActionView;

    open spec fn view(&self) -> ActionView {
        match self {
            Action::Read(file) => ActionView::Read(*file),
            Action::Generate { slot, len } => ActionView::Generate { slot: *slot, len: *len },
            Action::Transform { key, iv, input, scratch } => ActionView::Transform {
                key: key@,
                iv: iv@,
                input: input@,
                scratch: scratch@,
            },
            Action::Write { file, bytes } => ActionView::Write { file: *file, bytes: bytes@ },
            Action::Finish => ActionView::Finish,
            Action::Fail(e) => ActionView::Fail(*e),
        }
    }
}

impl View for Run {
    type V = RunView;

    closed spec fn view(&self) -> RunView {
        RunView {
            params: self.params,
            direction: self.direction,
            phase: self.phase,
            input: self.input@,
            input_len: self.input_len as nat,
            key: self.key@,
            iv: self.iv@,
            output: self.output@,
        }
    }
}

impl RunView {
    /// What holds of every state that a run can reach: key material is
    /// generated and saved only when encrypting, the cipher runs only on
    /// material of the right length, and the output held has the length of the
    /// input.
    pub open spec fn wf(self) -> bool {
        match self.phase {
            Phase::GeneratingKey | Phase::GeneratingIv => self.direction == Direction::Encrypt,
            Phase::Transforming => {
                &&& self.key.len() == self.params.spec_key_len()
                &&& self.iv.len() == self.params.spec_block_len()
            },
            Phase::WritingKey => {
                &&& self.direction == Direction::Encrypt
                &&& self.iv.len() == self.params.spec_block_len()
                &&& self.output.len() == self.input_len
            },
            Phase::WritingIv => {
                &&& self.direction == Direction::Encrypt
                &&& self.output.len() == self.input_len
            },
            _ => true,
        }
    }
}

/// A run that has asked for its input and holds nothing yet.
pub open spec fn initial(direction: Direction, params: Params) -> RunView {
    RunView {
        params,
        direction,
        phase: Phase::ReadingInput,
        input: Seq::empty(),
        input_len: 0,
        key: Seq::empty(),
        iv: Seq::empty(),
        output: Seq::empty(),
    }
}

/// The run abandoned with `e`.
pub open spec fn halted(s: RunView, e: Error) -> (RunView, ActionView) {
    (RunView { phase: Phase::Failed(e), ..s }, ActionView::Fail(e))
}

/// What follows a slot's file being unreadable: when encrypting, fresh bytes
/// of the slot's length are drawn; when decrypting, the run fails.
pub open spec fn missing(s: RunView, slot: Slot) -> (RunView, ActionView) {
    match s.direction {
        Direction::Encrypt => (
            RunView {
                phase: match slot {
                    Slot::Key => Phase::GeneratingKey,
                    Slot::Iv => Phase::GeneratingIv,
                },
                ..s
            },
            ActionView::Generate { slot, len: s.params.spec_slot_len(slot) },
        ),
        Direction::Decrypt => halted(s, Error::Io(slot.spec_file())),
    }
}

/// What follows key and IV being in hand: their lengths are checked, and only
/// then is the cipher given them, the input, and a zeroed scratch buffer of
/// the padded length.
pub open spec fn engage(s: RunView) -> (RunView, ActionView) {
    let block = s.params.spec_block_len() as nat;
    match length_fault(s.key, s.iv, s.params) {
        Some(e) => halted(s, e),
        None => if block > 0 && padded(s.input.len(), block) <= usize::MAX {
            (
                RunView {
                    phase: Phase::Transforming,
                    input: Seq::empty(),
                    input_len: s.input.len(),
                    ..s
                },
                ActionView::Transform {
                    key: s.key,
                    iv: s.iv,
                    input: s.input,
                    scratch: zeros(padded(s.input.len(), block)),
                },
            )
        } else {
            halted(s, Error::CipherSetup)
        },
    }
}

/// What follows the cipher's return: its scratch buffer is cut to the length
/// of the input. When encrypting, key and IV are saved before the output is
/// written; when decrypting, only the output is written.
pub open spec fn transformed(s: RunView, scratch: Seq<u8>) -> (RunView, ActionView) {
    let output = fit(scratch, s.input_len);
    match s.direction {
        Direction::Encrypt => (
            RunView { phase: Phase::WritingKey, key: Seq::empty(), output, ..s },
            ActionView::Write { file: FileKind::Key, bytes: s.key },
        ),
        Direction::Decrypt => (
            RunView { phase: Phase::WritingOutput, ..s },
            ActionView::Write { file: FileKind::Output, bytes: output },
        ),
    }
}

/// The state after `r` is reported in state `s`, and the action to take then.
pub open spec fn next(s: RunView, r: ReportView) -> (RunView, ActionView) {
    match s.phase {
        Phase::ReadingInput => match r {
            ReportView::Done(bytes) => (
                RunView { phase: Phase::ReadingKey, input: bytes, ..s },
                ActionView::Read(FileKind::Key),
            ),
            ReportView::Failed => halted(s, Error::Io(FileKind::Input)),
        },
        Phase::ReadingKey => match r {
            ReportView::Done(bytes) => (
                RunView { phase: Phase::ReadingIv, key: bytes, ..s },
                ActionView::Read(FileKind::Iv),
            ),
            ReportView::Failed => missing(s, Slot::Key),
        },
        Phase::GeneratingKey => match r {
            ReportView::Done(bytes) => (
                RunView { phase: Phase::ReadingIv, key: bytes, ..s },
                ActionView::Read(FileKind::Iv),
            ),
            ReportView::Failed => halted(s, Error::Rng),
        },
        Phase::ReadingIv => match r {
            ReportView::Done(bytes) => engage(RunView { iv: bytes, ..s }),
            ReportView::Failed => missing(s, Slot::Iv),
        },
        Phase::GeneratingIv => match r {
            ReportView::Done(bytes) => engage(RunView { iv: bytes, ..s }),
            ReportView::Failed => halted(s, Error::Rng),
        },
        Phase::Transforming => match r {
            ReportView::Done(scratch) => transformed(s, scratch),
            ReportView::Failed => halted(s, Error::CipherSetup),
        },
        Phase::WritingKey => match r {
            ReportView::Done(_) => (
                RunView { phase: Phase::WritingIv, iv: Seq::empty(), ..s },
                ActionView::Write { file: FileKind::Iv, bytes: s.iv },
            ),
            ReportView::Failed => halted(s, Error::Io(FileKind::Key)),
        },
        Phase::WritingIv => match r {
            ReportView::Done(_) => (
                RunView { phase: Phase::WritingOutput, output: Seq::empty(), ..s },
                ActionView::Write { file: FileKind::Output, bytes: s.output },
            ),
            ReportView::Failed => halted(s, Error::Io(FileKind::Iv)),
        },
        Phase::WritingOutput => match r {
            ReportView::Done(_) => (RunView { phase: Phase::Finished, ..s }, ActionView::Finish),
            ReportView::Failed => halted(s, Error::Io(FileKind::Output)),
        },
        Phase::Finished => (s, ActionView::Finish),
        Phase::Failed(e) => (s, ActionView::Fail(e)),
    }
}

impl Run {
    /// Begins a run in the given direction. The first thing to do is to read
    /// the input.
    pub fn start(direction: Direction, params: Params) -> (out: (Run, Action))
        ensures
            out.0@ == initial(direction, params),
            out.1@ == ActionView::Read(FileKind::Input),
    {
        let run = Run {
            params,
            direction,
            phase: Phase::ReadingInput,
            input: Vec::new(),
            input_len: 0,
            key: Vec::new(),
            iv: Vec::new(),
            output: Vec::new(),
        };
        (run, Action::Read(FileKind::Input))
    }

    /// Where the run stands.
    pub fn phase(&self) -> (p: Phase)
        ensures
            p == self@.phase,
    {
        self.phase
    }

    /// The direction the run was begun in.
    pub fn direction(&self) -> (d: Direction)
        ensures
            d == self@.direction,
    {
        self.direction
    }

    /// The parameters the run was begun with.
    pub fn params(&self) -> (p: Params)
        ensures
            p == self@.params,
    {
        self.params
    }

    /// Whether the run has ended, well or badly.
    pub fn is_over(&self) -> (over: bool)
        ensures
            over == (self@.phase is Finished || self@.phase is Failed),
    {
        match self.phase {
            Phase::Finished => true,
            Phase::Failed(_) => true,
            _ => false,
        }
    }

    fn halt(self, e: Error) -> (out: (Run, Action))
        ensures
            (out.0@, out.1@) == halted(self@, e),
    {
        (Run { phase: Phase::Failed(e), ..self }, Action::Fail(e))
    }

    fn lacking(self, slot: Slot) -> (out: (Run, Action))
        ensures
            (out.0@, out.1@) == missing(self@, slot),
    {
        match self.direction {
            Direction::Encrypt => {
                let len = self.params.slot_len(slot);
                let phase = match slot {
                    Slot::Key => Phase::GeneratingKey,
                    Slot::Iv => Phase::GeneratingIv,
                };
                (Run { phase, ..self }, Action::Generate { slot, len })
            },
            Direction::Decrypt => self.halt(Error::Io(slot.file())),
        }
    }

    fn hand_over(self) -> (out: (Run, Action))
        ensures
            (out.0@, out.1@) == engage(self@),
    {
        match check_lengths(self.key.as_slice(), self.iv.as_slice(), &self.params) {
            Err(e) => self.halt(e),
            Ok(()) => match padded_len(self.input.len(), self.params.block_len()) {
                None => self.halt(Error::CipherSetup),
                Some(room) => {
                    let Run { params, direction, phase: _, input, input_len: _, key, iv, output } =
                        self;
                    let input_len = input.len();
                    let action = Action::Transform {
                        key: key.clone(),
                        iv: iv.clone(),
                        input,
                        scratch: zeroed(room),
                    };
                    (
                        Run {
                            params,
                            direction,
                            phase: Phase::Transforming,
                            input: Vec::new(),
                            input_len,
                            key,
                            iv,
                            output,
                        },
                        action,
                    )
                },
            },
        }
    }

    fn settle(self, scratch: Vec<u8>) -> (out: (Run, Action))
        ensures
            (out.0@, out.1@) == transformed(self@, scratch@),
    {
        let output = fit_to(scratch, self.input_len);
        match self.direction {
            Direction::Encrypt => {
                let Run { params, direction, phase: _, input, input_len, key, iv, output: _ } =
                    self;
                (
                    Run {
                        params,
                        direction,
                        phase: Phase::WritingKey,
                        input,
                        input_len,
                        key: Vec::new(),
                        iv,
                        output,
                    },
                    Action::Write { file: FileKind::Key, bytes: key },
                )
            },
            Direction::Decrypt => (
                Run { phase: Phase::WritingOutput, ..self },
                Action::Write { file: FileKind::Output, bytes: output },
            ),
        }
    }

    /// Takes the report of the action last handed out and says what to do
    /// next. Once the run is over it stays as it is and repeats its verdict.
    pub fn step(self, report: Report) -> (out: (Run, Action))
        ensures
            (out.0@, out.1@) == next(self@, report@),
    {
        match self.phase {
            Phase::ReadingInput => match report {
                Report::Done(bytes) => (
                    Run { phase: Phase::ReadingKey, input: bytes, ..self },
                    Action::Read(FileKind::Key),
                ),
                Report::Failed => self.halt(Error::Io(FileKind::Input)),
            },
            Phase::ReadingKey => match report {
                Report::Done(bytes) => (
                    Run { phase: Phase::ReadingIv, key: bytes, ..self },
                    Action::Read(FileKind::Iv),
                ),
                Report::Failed => self.lacking(Slot::Key),
            },
            Phase::GeneratingKey => match report {
                Report::Done(bytes) => (
                    Run { phase: Phase::ReadingIv, key: bytes, ..self },
                    Action::Read(FileKind::Iv),
                ),
                Report::Failed => self.halt(Error::Rng),
            },
            Phase::ReadingIv => match report {
                Report::Done(bytes) => {
                    let held = Run { iv: bytes, ..self };
                    held.hand_over()
                },
                Report::Failed => self.lacking(Slot::Iv),
            },
            Phase::GeneratingIv => match report {
                Report::Done(bytes) => {
                    let held = Run { iv: bytes, ..self };
                    held.hand_over()
                },
                Report::Failed => self.halt(Error::Rng),
            },
            Phase::Transforming => match report {
                Report::Done(scratch) => self.settle(scratch),
                Report::Failed => self.halt(Error::CipherSetup),
            },
            Phase::WritingKey => match report {
                Report::Done(_) => {
                    let Run { params, direction, phase: _, input, input_len, key, iv, output } =
                        self;
                    (
                        Run {
                            params,
                            direction,
                            phase: Phase::WritingIv,
                            input,
                            input_len,
                            key,
                            iv: Vec::new(),
                            output,
                        },
                        Action::Write { file: FileKind::Iv, bytes: iv },
                    )
                },
                Report::Failed => self.halt(Error::Io(FileKind::Key)),
            },
            Phase::WritingIv => match report {
                Report::Done(_) => {
                    let Run { params, direction, phase: _, input, input_len, key, iv, output } =
                        self;
                    (
                        Run {
                            params,
                            direction,
                            phase: Phase::WritingOutput,
                            input,
                            input_len,
                            key,
                            iv,
                            output: Vec::new(),
                        },
                        Action::Write { file: FileKind::Output, bytes: output },
                    )
                },
                Report::Failed => self.halt(Error::Io(FileKind::Iv)),
            },
            Phase::WritingOutput => match report {
                Report::Done(_) => (Run { phase: Phase::Finished, ..self }, Action::Finish),
                Report::Failed => self.halt(Error::Io(FileKind::Output)),
            },
            Phase::Finished => (self, Action::Finish),
            Phase::Failed(e) => (self, Action::Fail(e)),
        }
    }
}

} // verus!
