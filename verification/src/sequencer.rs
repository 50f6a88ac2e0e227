//! Running a program against the hardware, one action at a time.
//!
//! The [`Sequencer`] holds a program and knows how far it has come.  The
//! shell calls [`Sequencer::step`] with what happened last, performs the
//! action it gets back, and calls again, until the action is
//! [`Action::Finished`].  All waiting is done this way: the sequencer asks
//! for one sample of the status register, decides on it, and asks again if
//! the peripheral is not there yet.

use vstd::prelude::*;
use crate::error::Error;
use crate::program::{Channel, Instr, Op};
use crate::status::{
    flush_rx_fifo, spec_flush_rx_fifo, spec_spin_until_ready, spin_until_rx_ready,
    spin_until_tx_ready, Readiness, Status,
};
use crate::version::Version;

verus! {

/// What the shell reports to the sequencer.
#[derive(Clone, Copy, Debug, PartialEq, Eq)]
pub enum Event {
    /// The last action has been performed and there is nothing to tell.
    /// This is also the event that starts a program.
    Performed,
    /// The status register was read and held this.
    Status(Status),
    /// A DMA channel has completed its transfer.
    Completed(Channel),
}

/// What the sequencer asks of the shell.
#[derive(Clone, Copy, Debug, PartialEq, Eq)]
pub enum Action {
    /// Perform this operation, then report [`Event::Performed`].
    Do(Op),
    /// Read the status register and report it as [`Event::Status`].
    ReadStatus,
    /// Suspend until a DMA channel completes, then report it as
    /// [`Event::Completed`].
    AwaitDma,
    /// The program has ended with this result.  Nothing is left to do.
    Finished(Result<(), Error>),
}

/// Where the sequencer stands with the instruction it is at.
#[derive(Clone, Copy, Debug, PartialEq, Eq)]
pub enum Stage {
    /// The instruction has not been begun.
    Fetch,
    /// The instruction waits for the peripheral; a status read is out.
    Polling,
    /// The instruction waits for the DMA channels.
    Joining,
    /// The program has ended.
    Finished(Result<(), Error>),
}

/// The state of a sequencer.
pub struct SequencerView {
    /// The revision of the peripheral.
    pub version: Version,
    /// The program.
    pub program: Seq<Instr>,
    /// The index of the instruction the sequencer is at.
    pub pc: nat,
    /// Where it stands with that instruction.
    pub stage: Stage,
    /// Whether the transmit channel was started and has not completed.
    pub tx_pending: bool,
    /// Whether the receive channel was started and has not completed.
    pub rx_pending: bool,
}

impl Instr {
    /// Whether the instruction waits on the status register.
    pub open spec fn polls(self) -> bool {
        self is Drain || self is Wait || self is Poll
    }
}

impl SequencerView {
    /// The state in which a program starts.
    pub open spec fn start(version: Version, program: Seq<Instr>) -> SequencerView {
        SequencerView {
            version,
            program,
            pc: 0,
            stage: Stage::Fetch,
            tx_pending: false,
            rx_pending: false,
        }
    }

    /// The sequencer stands inside its program, and where it waits it is at
    /// an instruction that waits.
    pub open spec fn wf(self) -> bool {
        &&& self.pc <= self.program.len()
        &&& self.stage is Polling ==> self.pc < self.program.len()
            && self.program[self.pc as int].polls()
        &&& self.stage is Joining ==> self.pc < self.program.len()
            && self.program[self.pc as int] is Join
    }

    /// The state after taking note of a completed DMA channel.
    pub open spec fn absorb(self, event: Event) -> SequencerView {
        match event {
            Event::Completed(Channel::Tx) => SequencerView { tx_pending: false, ..self },
            Event::Completed(Channel::Rx) => SequencerView { rx_pending: false, ..self },
            _ => self,
        }
    }

    /// The state at the beginning of the next instruction.
    pub open spec fn advance(self) -> SequencerView {
        SequencerView { pc: self.pc + 1, stage: Stage::Fetch, ..self }
    }

    /// Begins the instruction the sequencer is at.
    ///
    /// Past the end the program finishes with success.  An operation is
    /// handed out and the sequencer moves on; a started DMA channel is
    /// noted as pending.  An instruction that waits has its first status
    /// read, or its suspension, handed out.
    pub open spec fn fetch(self) -> (SequencerView, Action) {
        if self.pc >= self.program.len() {
            (SequencerView { stage: Stage::Finished(Ok(())), ..self }, Action::Finished(Ok(())))
        } else {
            match self.program[self.pc as int] {
                Instr::Do(op) => (
                    SequencerView {
                        pc: self.pc + 1,
                        stage: Stage::Fetch,
                        tx_pending: self.tx_pending || op is StartTxDma,
                        rx_pending: self.rx_pending || op is StartRxDma,
                        ..self
                    },
                    Action::Do(op),
                ),
                Instr::Join => (SequencerView { stage: Stage::Joining, ..self }, Action::AwaitDma),
                _ => (SequencerView { stage: Stage::Polling, ..self }, Action::ReadStatus),
            }
        }
    }

    /// Decides on a sample of the status register for the instruction that
    /// waits for it.
    ///
    /// A wait for a condition ends when the condition holds.  A wait for
    /// readiness ends when the peripheral is ready, and ends the whole
    /// program when an error flag shows.  A drain has one word read and
    /// thrown away while the peripheral holds one, and ends when it holds
    /// none; on the third generation it ends at once and reads nothing.  In
    /// every other case the status is read once more.
    pub open spec fn decide(self, sr: Status) -> (SequencerView, Action) {
        match self.program[self.pc as int] {
            Instr::Wait(condition) => if condition.spec_holds(sr) {
                self.advance().fetch()
            } else {
                (self, Action::ReadStatus)
            },
            Instr::Poll(readiness) => match spec_spin_until_ready(readiness, self.version, sr) {
                None => (self, Action::ReadStatus),
                Some(Err(e)) => (
                    SequencerView { stage: Stage::Finished(Err(e)), ..self },
                    Action::Finished(Err(e)),
                ),
                Some(Ok(())) => self.advance().fetch(),
            },
            Instr::Drain { from } => if spec_flush_rx_fifo(self.version, sr) {
                (
                    SequencerView { stage: Stage::Fetch, ..self },
                    Action::Do(Op::Receive { from, slot: None }),
                )
            } else {
                self.advance().fetch()
            },
            _ => (self, Action::ReadStatus),
        }
    }

    /// One step: the state after `event`, and the action that the shell is
    /// to perform next.
    ///
    /// A completed DMA channel is taken note of whenever it is reported.  A
    /// finished program stays finished.  The suspension for the DMA
    /// channels ends when none is pending.
    pub open spec fn step(self, event: Event) -> (SequencerView, Action) {
        let noted = self.absorb(event);
        match noted.stage {
            Stage::Finished(result) => (noted, Action::Finished(result)),
            Stage::Fetch => noted.fetch(),
            Stage::Polling => match event {
                Event::Status(sr) => noted.decide(sr),
                _ => (noted, Action::ReadStatus),
            },
            Stage::Joining => if !noted.tx_pending && !noted.rx_pending {
                noted.advance().fetch()
            } else {
                (noted, Action::AwaitDma)
            },
        }
    }
}

/// Runs a program against the hardware, one action at a time.
pub struct Sequencer {
    version: Version,
    program: Vec<Instr>,
    pc: usize,
    stage: Stage,
    tx_pending: bool,
    rx_pending: bool,
}

impl View for Sequencer {
    type V = SequencerView;

    closed spec fn view(&self) -> SequencerView {
        SequencerView {
            version: self.version,
            program: self.program@,
            pc: self.pc as nat,
            stage: self.stage,
            tx_pending: self.tx_pending,
            rx_pending: self.rx_pending,
        }
    }
}

impl Sequencer {
    #[verifier::type_invariant]
    spec fn inv(self) -> bool {
        self@.wf()
    }

    /// A sequencer at the start of `program`.
    pub fn new(version: Version, program: Vec<Instr>) -> (sequencer: Sequencer)
        ensures
            sequencer@ == SequencerView::start(version, program@),
    {
        Sequencer {
            version,
            program,
            pc: 0,
            stage: Stage::Fetch,
            tx_pending: false,
            rx_pending: false,
        }
    }

    /// The result of the program, once it has ended.
    pub fn result(&self) -> (result: Option<Result<(), Error>>)
        ensures
            result == (match self@.stage {
                Stage::Finished(r) => Some(r),
                _ => None,
            }),
            self@.wf(),
    {
        proof {
            use_type_invariant(self);
        }
        match self.stage {
            Stage::Finished(r) => Some(r),
            _ => None,
        }
    }

    fn fetch(&mut self) -> (action: Action)
        ensures
            (final(self)@, action) == old(self)@.fetch(),
    {
        proof {
            use_type_invariant(&*self);
        }
        if self.pc >= self.program.len() {
            self.stage = Stage::Finished(Ok(()));
            return Action::Finished(Ok(()));
        }
        match self.program[self.pc] {
            Instr::Do(op) => {
                self.stage = Stage::Fetch;
                self.pc = self.pc + 1;
                match op {
                    Op::StartTxDma { .. } => {
                        self.tx_pending = true;
                    },
                    Op::StartRxDma { .. } => {
                        self.rx_pending = true;
                    },
                    _ => {},
                }
                Action::Do(op)
            },
            Instr::Join => {
                self.stage = Stage::Joining;
                Action::AwaitDma
            },
            _ => {
                self.stage = Stage::Polling;
                Action::ReadStatus
            },
        }
    }

    fn advance(&mut self)
        requires
            old(self)@.pc < old(self)@.program.len(),
        ensures
            final(self)@ == old(self)@.advance(),
    {
        proof {
            use_type_invariant(&*self);
        }
        let len = self.program.len();
        assert(self.pc < len);
        self.stage = Stage::Fetch;
        self.pc = self.pc + 1;
    }

    fn decide(&mut self, sr: Status) -> (action: Action)
        requires
            old(self)@.stage is Polling,
        ensures
            (final(self)@, action) == old(self)@.decide(sr),
    {
        proof {
            use_type_invariant(&*self);
        }
        match self.program[self.pc] {
            Instr::Wait(condition) => {
                if condition.holds(sr) {
                    self.advance();
                    self.fetch()
                } else {
                    Action::ReadStatus
                }
            },
            Instr::Poll(readiness) => {
                let turn = match readiness {
                    Readiness::Transmit => spin_until_tx_ready(self.version, sr),
                    Readiness::Receive => spin_until_rx_ready(self.version, sr),
                };
                match turn {
                    None => Action::ReadStatus,
                    Some(Err(e)) => {
                        self.stage = Stage::Finished(Err(e));
                        Action::Finished(Err(e))
                    },
                    Some(Ok(())) => {
                        self.advance();
                        self.fetch()
                    },
                }
            },
            Instr::Drain { from } => {
                if flush_rx_fifo(self.version, sr) {
                    self.stage = Stage::Fetch;
                    Action::Do(Op::Receive { from, slot: None })
                } else {
                    self.advance();
                    self.fetch()
                }
            },
            _ => Action::ReadStatus,
        }
    }

    /// Takes what happened last and says what is to be done next.
    pub fn step(&mut self, event: Event) -> (action: Action)
        ensures
            (final(self)@, action) == old(self)@.step(event),
            final(self)@.wf(),
    {
        proof {
            use_type_invariant(&*self);
        }
        match event {
            Event::Completed(Channel::Tx) => {
                self.tx_pending = false;
            },
            Event::Completed(Channel::Rx) => {
                self.rx_pending = false;
            },
            _ => {},
        }
        let action = match self.stage {
            Stage::Finished(result) => Action::Finished(result),
            Stage::Fetch => self.fetch(),
            Stage::Polling => match event {
                Event::Status(sr) => self.decide(sr),
                _ => Action::ReadStatus,
            },
            Stage::Joining => {
                if !self.tx_pending && !self.rx_pending {
                    self.advance();
                    self.fetch()
                } else {
                    Action::AwaitDma
                }
            },
        };
        proof {
            use_type_invariant(&*self);
        }
        action
    }
}

} // verus!
