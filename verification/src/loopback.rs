//! A bus with its data out wired to its data in, and what the driver's
//! programs do on it.
//!
//! The model stands for a shell and a peripheral that never fail: every
//! word that is sent comes back, the transmit side always takes a word, no
//! error flag is ever set, and every DMA transfer that is started
//! completes.  It serves to say what a transfer comes to, from the first
//! step of the sequencer to the last.

use vstd::prelude::*;
use crate::blocking::{
    blocking_program, blocking_prologue, exchange_program, slot, spec_transfer_word,
};
use crate::dma::{
    dma_completion, dma_enable_register, dma_go, dma_preparation, dma_starts,
    lemma_dma_program_parts, spec_finish_dma, spec_set_rxdmaen, transfer_program, write_program,
};
use crate::laws::{lemma_registers_after_concat, lemma_registers_after_push};
use crate::error::Error;
use crate::program::{
    modify, registers_after, spec_rx_register, spec_tx_register, Channel, Instr, Op, TxSource,
};
use crate::regs::{Patch, Register, Registers};
use crate::sequencer::{Action, Event, SequencerView, Stage};
use crate::spi::word_size_program;
use crate::status::{Condition, Readiness, Status};
use crate::version::{Family, Version};
use crate::word::WordSize;

verus! {

/// A peripheral on a looped-back bus, with the buffers of its caller.
pub struct Wire {
    /// The caller's transmit buffer.
    pub write: Seq<u32>,
    /// The caller's receive buffer.
    pub read: Seq<u32>,
    /// The words that have been sent, in order.
    pub sent: Seq<u32>,
    /// The words that have come back and have not been read yet.
    pub held: Seq<u32>,
    /// The control fields of the peripheral.
    pub regs: Registers,
    /// Whether the transmit DMA channel is at work.
    pub tx_running: bool,
    /// Whether the receive DMA channel is at work.
    pub rx_running: bool,
    /// Which of the two channels completes first when both are at work.
    pub tx_first: bool,
}

impl Wire {
    /// Whether nothing is under way: no word is on the bus and no channel
    /// is at work.
    pub open spec fn idle(self) -> bool {
        self.held.len() == 0 && !self.tx_running && !self.rx_running
    }

    /// What the status register holds: the transmit side is ready, the
    /// receive side is ready when a word has come back, the shifter is at
    /// rest and no error flag is set.
    pub open spec fn status(self) -> Status {
        Status {
            overrun: false,
            frame_error: false,
            mode_fault: false,
            crc_error: false,
            tx_ready: true,
            rx_ready: self.held.len() > 0,
            busy: false,
            transfer_complete: true,
            tx_fifo_level: 0,
        }
    }

    /// The word that a send from `slot` puts on the bus.
    pub open spec fn word(self, slot: Option<usize>) -> u32 {
        match slot {
            Some(index) => if index < self.write.len() {
                self.write[index as int]
            } else {
                0
            },
            None => 0,
        }
    }

    /// The peripheral after an operation: an access changes the control
    /// fields, a word that is sent comes back, a word that is read goes to
    /// its slot of the receive buffer, and a channel that is started is at
    /// work.
    pub open spec fn perform(self, op: Op) -> Wire {
        match op {
            Op::Modify(_, patch) => Wire { regs: self.regs.patched(patch), ..self },
            Op::Send { slot, .. } => Wire {
                sent: self.sent.push(self.word(slot)),
                held: self.held.push(self.word(slot)),
                ..self
            },
            Op::Receive { slot, .. } => if self.held.len() == 0 {
                self
            } else {
                Wire {
                    held: self.held.drop_first(),
                    read: match slot {
                        Some(index) => if index < self.read.len() {
                            self.read.update(index as int, self.held[0])
                        } else {
                            self.read
                        },
                        None => self.read,
                    },
                    ..self
                }
            },
            Op::StartTxDma { .. } => Wire { tx_running: true, ..self },
            Op::StartRxDma { .. } => Wire { rx_running: true, ..self },
            _ => self,
        }
    }

    /// The channel that completes next, if any is at work.
    pub open spec fn next_completion(self) -> Option<Channel> {
        if self.tx_running && (self.tx_first || !self.rx_running) {
            Some(Channel::Tx)
        } else if self.rx_running {
            Some(Channel::Rx)
        } else {
            None
        }
    }

    /// What the shell does on an action, and what it reports back.
    pub open spec fn react(self, action: Action) -> (Wire, Event) {
        match action {
            Action::Do(op) => (self.perform(op), Event::Performed),
            Action::ReadStatus => (self, Event::Status(self.status())),
            Action::AwaitDma => match self.next_completion() {
                Some(Channel::Tx) => (
                    Wire { tx_running: false, ..self },
                    Event::Completed(Channel::Tx),
                ),
                Some(Channel::Rx) => (
                    Wire { rx_running: false, ..self },
                    Event::Completed(Channel::Rx),
                ),
                None => (self, Event::Performed),
            },
            Action::Finished(_) => (self, Event::Performed),
        }
    }
}

impl Instr {
    /// The peripheral after the instruction has run its course.
    pub open spec fn on_wire(self, wire: Wire) -> Wire {
        match self {
            Instr::Do(op) => wire.perform(op),
            Instr::Join => Wire { tx_running: false, rx_running: false, ..wire },
            _ => wire,
        }
    }

    /// Whether the instruction runs its course on the peripheral as it is:
    /// a wait for a received word needs one to have come back, and a drain
    /// is meant for a bus that holds none.
    pub open spec fn admitted(self, wire: Wire) -> bool {
        match self {
            Instr::Poll(Readiness::Receive) => wire.held.len() > 0,
            Instr::Drain { .. } => wire.held.len() == 0,
            _ => true,
        }
    }

    /// Whether the instruction moves no data, waits for none and starts no
    /// channel.
    pub open spec fn quiet(self) -> bool {
        match self {
            Instr::Do(op) => !(op is Send) && !(op is Receive) && !(op is StartTxDma) && !(op
                is StartRxDma),
            Instr::Drain { .. } => true,
            Instr::Wait(_) => true,
            Instr::Poll(readiness) => readiness == Readiness::Transmit,
            Instr::Join => false,
        }
    }
}

/// The peripheral after the instructions of a program have run their course
/// one after the other.
pub open spec fn wire_after(wire: Wire, program: Seq<Instr>) -> Wire
    decreases program.len(),
{
    if program.len() == 0 {
        wire
    } else {
        program.last().on_wire(wire_after(wire, program.drop_last()))
    }
}

/// Whether every instruction of a program runs its course on the peripheral
/// as it finds it.
pub open spec fn admitted(wire: Wire, program: Seq<Instr>) -> bool
    decreases program.len(),
{
    if program.len() == 0 {
        true
    } else {
        admitted(wire, program.drop_last()) && program.last().admitted(
            wire_after(wire, program.drop_last()),
        )
    }
}

/// Whether no instruction of the program moves data, waits for any or
/// starts a channel.
pub open spec fn quiet(program: Seq<Instr>) -> bool {
    forall|i: int| 0 <= i < program.len() ==> (#[trigger] program[i]).quiet()
}

/// The sequencer and the peripheral after `steps` steps, and the event that
/// is reported next.
pub open spec fn run(s: SequencerView, wire: Wire, event: Event, steps: nat) -> (
    SequencerView,
    Wire,
    Event,
)
    decreases steps,
{
    if steps == 0 {
        (s, wire, event)
    } else {
        let (next, action) = s.step(event);
        let (changed, report) = wire.react(action);
        run(next, changed, report, (steps - 1) as nat)
    }
}

/// Whether a run has ended with success and left the peripheral as
/// `expected`.
pub open spec fn succeeded(outcome: (SequencerView, Wire, Event), expected: Wire) -> bool {
    outcome.0.stage == Stage::Finished(Ok(())) && outcome.1 == expected
}

/// The peripheral after the first `k` instructions of a program is the
/// peripheral after the first `k - 1`, changed by the `k`-th.
pub proof fn lemma_wire_after_take(wire: Wire, program: Seq<Instr>, k: int)
    requires
        0 < k <= program.len(),
    ensures
        wire_after(wire, program.take(k)) == program[k - 1].on_wire(
            wire_after(wire, program.take(k - 1)),
        ),
        wire_after(wire, program.take(0)) == wire,
        program.take(program.len() as int) == program,
{
    assert(program.take(k).drop_last() =~= program.take(k - 1));
    assert(program.take(program.len() as int) =~= program);
}

/// The peripheral after a program with one more instruction at its end,
/// and whether that program is admitted.
pub proof fn lemma_wire_after_push(wire: Wire, program: Seq<Instr>, instr: Instr)
    ensures
        wire_after(wire, program.push(instr)) == instr.on_wire(wire_after(wire, program)),
        admitted(wire, program.push(instr)) == (admitted(wire, program) && instr.admitted(
            wire_after(wire, program),
        )),
{
    assert(program.push(instr).drop_last() =~= program);
}

/// Running two programs one after the other leaves the peripheral as the
/// second leaves what the first has left, and the two are admitted
/// together if each is admitted on the peripheral it finds.
pub proof fn lemma_wire_after_concat(wire: Wire, first: Seq<Instr>, second: Seq<Instr>)
    ensures
        wire_after(wire, first + second) == wire_after(wire_after(wire, first), second),
        admitted(wire, first + second) == (admitted(wire, first) && admitted(
            wire_after(wire, first),
            second,
        )),
    decreases second.len(),
{
    if second.len() == 0 {
        assert(first + second =~= first);
    } else {
        assert((first + second).drop_last() =~= first + second.drop_last());
        lemma_wire_after_concat(wire, first, second.drop_last());
    }
}

/// In a program that is admitted, every instruction finds the peripheral
/// as it needs it.
pub proof fn lemma_admitted_at(wire: Wire, program: Seq<Instr>, k: int)
    requires
        admitted(wire, program),
        0 <= k < program.len(),
    ensures
        program[k].admitted(wire_after(wire, program.take(k))),
    decreases program.len(),
{
    if k == program.len() - 1 {
        assert(program.take(k) =~= program.drop_last());
    } else {
        lemma_admitted_at(wire, program.drop_last(), k);
        assert(program.drop_last().take(k) =~= program.take(k));
    }
}

/// The control fields of the peripheral after a program are those that the
/// accesses of the program make of them.
pub proof fn lemma_wire_after_regs(wire: Wire, program: Seq<Instr>)
    ensures
        wire_after(wire, program).regs == registers_after(wire.regs, program),
    decreases program.len(),
{
    if program.len() > 0 {
        lemma_wire_after_regs(wire, program.drop_last());
    }
}

/// A program that moves no data and starts no channel runs its course on a
/// bus that holds no word, and changes the control fields only.
pub proof fn lemma_quiet_program(wire: Wire, program: Seq<Instr>)
    requires
        quiet(program),
        wire.held.len() == 0,
    ensures
        admitted(wire, program),
        wire_after(wire, program) == (Wire {
            regs: registers_after(wire.regs, program),
            ..wire
        }),
    decreases program.len(),
{
    if program.len() > 0 {
        assert(program.last().quiet());
        assert forall|i: int| 0 <= i < program.drop_last().len() implies (
        #[trigger] program.drop_last()[i]).quiet() by {
            assert(program.drop_last()[i] == program[i]);
        }
        lemma_quiet_program(wire, program.drop_last());
    }
}

/// Two programs that are quiet make one that is quiet.
pub proof fn lemma_quiet_concat(first: Seq<Instr>, second: Seq<Instr>)
    requires
        quiet(first),
        quiet(second),
    ensures
        quiet(first + second),
{
    assert forall|i: int| 0 <= i < (first + second).len() implies (#[trigger] (first + second)[i]).quiet() by {
        if i < first.len() {
            assert((first + second)[i] == first[i]);
        } else {
            assert((first + second)[i] == second[i - first.len()]);
        }
    }
}

/// Whether a sequencer that runs a program on the peripheral `start` is on
/// course: the instructions before the one it stands at have run their
/// course, it knows of the channels that are at work, and the report that
/// it waits for is on its way.
pub open spec fn on_course(s: SequencerView, wire: Wire, event: Event, start: Wire) -> bool {
    let reached = wire_after(start, s.program.take(s.pc as int));
    &&& s.wf()
    &&& match s.stage {
        Stage::Fetch => {
            &&& wire == reached
            &&& event == Event::Performed
            &&& s.tx_pending == wire.tx_running
            &&& s.rx_pending == wire.rx_running
        },
        Stage::Polling => {
            &&& wire == reached
            &&& event == Event::Status(wire.status())
            &&& s.tx_pending == wire.tx_running
            &&& s.rx_pending == wire.rx_running
        },
        Stage::Joining => {
            &&& wire == Wire { tx_running: wire.tx_running, rx_running: wire.rx_running, ..reached }
            &&& match event {
                Event::Completed(Channel::Tx) => s.tx_pending && !wire.tx_running && s.rx_pending
                    == wire.rx_running,
                Event::Completed(Channel::Rx) => s.rx_pending && !wire.rx_running && s.tx_pending
                    == wire.tx_running,
                Event::Performed => !s.tx_pending && !s.rx_pending && !wire.tx_running
                    && !wire.rx_running,
                Event::Status(_) => false,
            }
        },
        Stage::Finished(result) => {
            &&& wire == reached
            &&& result == Ok::<(), Error>(())
            &&& s.pc == s.program.len()
        },
    }
}

/// How far a sequencer is from the end of its program, at most: four steps
/// for every instruction that is left.
pub open spec fn distance(s: SequencerView) -> nat {
    let left = 4 * (s.program.len() - s.pc);
    match s.stage {
        Stage::Finished(_) => 0,
        Stage::Fetch => (left + 3) as nat,
        Stage::Polling => (left + 2) as nat,
        Stage::Joining => (left + if s.tx_pending {
            1int
        } else {
            0int
        } + if s.rx_pending {
            1int
        } else {
            0int
        }) as nat,
    }
}

/// Beginning an instruction keeps a sequencer on course: if the
/// instructions before the one it stands at have run their course, then
/// after the fetch and the shell's reaction it is on course again, and
/// closer to the end.
pub proof fn lemma_fetch_on_course(s: SequencerView, wire: Wire, start: Wire)
    requires
        s.wf(),
        s.stage == Stage::Fetch,
        wire == wire_after(start, s.program.take(s.pc as int)),
        s.tx_pending == wire.tx_running,
        s.rx_pending == wire.rx_running,
        admitted(start, s.program),
    ensures
        ({
            let (next, action) = s.fetch();
            let (changed, report) = wire.react(action);
            &&& on_course(next, changed, report, start)
            &&& next.program == s.program
            &&& distance(next) < distance(s)
        }),
{
    let pc = s.pc as int;
    if pc < s.program.len() {
        lemma_wire_after_take(start, s.program, pc + 1);
    }
}

/// Deciding on a status keeps a sequencer on course: on this peripheral
/// every wait of an admitted program ends with the first sample.
pub proof fn lemma_decide_on_course(s: SequencerView, wire: Wire, start: Wire)
    requires
        s.wf(),
        s.stage == Stage::Polling,
        wire == wire_after(start, s.program.take(s.pc as int)),
        s.tx_pending == wire.tx_running,
        s.rx_pending == wire.rx_running,
        admitted(start, s.program),
    ensures
        ({
            let (next, action) = s.decide(wire.status());
            let (changed, report) = wire.react(action);
            &&& on_course(next, changed, report, start)
            &&& next.program == s.program
            &&& distance(next) < distance(s)
        }),
{
    let pc = s.pc as int;
    lemma_admitted_at(start, s.program, pc);
    lemma_wire_after_take(start, s.program, pc + 1);
    assert(s.decide(wire.status()) == s.advance().fetch());
    lemma_fetch_on_course(s.advance(), wire, start);
}

/// Taking note of a completed channel keeps a sequencer on course: it
/// stays suspended while a channel is at work and goes on when none is.
pub proof fn lemma_join_on_course(s: SequencerView, wire: Wire, event: Event, start: Wire)
    requires
        on_course(s, wire, event, start),
        s.stage == Stage::Joining,
        admitted(start, s.program),
    ensures
        ({
            let (next, action) = s.step(event);
            let (changed, report) = wire.react(action);
            &&& on_course(next, changed, report, start)
            &&& next.program == s.program
            &&& distance(next) < distance(s)
        }),
{
    let pc = s.pc as int;
    let noted = s.absorb(event);
    lemma_wire_after_take(start, s.program, pc + 1);
    if !noted.tx_pending && !noted.rx_pending {
        lemma_fetch_on_course(noted.advance(), wire, start);
    }
}

/// One step of a sequencer that is on course keeps it on course and
/// brings it closer to the end.
pub proof fn lemma_step_on_course(s: SequencerView, wire: Wire, event: Event, start: Wire)
    requires
        on_course(s, wire, event, start),
        admitted(start, s.program),
        !(s.stage is Finished),
    ensures
        ({
            let (next, action) = s.step(event);
            let (changed, report) = wire.react(action);
            &&& on_course(next, changed, report, start)
            &&& next.program == s.program
            &&& distance(next) < distance(s)
        }),
{
    match s.stage {
        Stage::Fetch => {
            lemma_fetch_on_course(s, wire, start);
        },
        Stage::Polling => {
            lemma_decide_on_course(s, wire, start);
        },
        Stage::Joining => {
            lemma_join_on_course(s, wire, event, start);
        },
        Stage::Finished(_) => {},
    }
}

/// A sequencer that is on course in a program that is admitted reaches the
/// end of the program: after some number of steps it has finished with
/// success, and the peripheral is as the program leaves it.
pub proof fn lemma_run_finishes(s: SequencerView, wire: Wire, event: Event, start: Wire)
    requires
        on_course(s, wire, event, start),
        admitted(start, s.program),
    ensures
        exists|steps: nat|
            succeeded(#[trigger] run(s, wire, event, steps), wire_after(start, s.program)),
    decreases distance(s),
{
    if s.stage is Finished {
        assert(s.program.take(s.pc as int) =~= s.program);
        assert(succeeded(run(s, wire, event, 0), wire_after(start, s.program)));
    } else {
        lemma_step_on_course(s, wire, event, start);
        let (next, action) = s.step(event);
        let (changed, report) = wire.react(action);
        lemma_run_finishes(next, changed, report, start);
        let rest = choose|steps: nat|
            succeeded(#[trigger] run(next, changed, report, steps), wire_after(start, s.program));
        assert(run(s, wire, event, rest + 1) == run(next, changed, report, rest));
        assert(succeeded(run(s, wire, event, rest + 1), wire_after(start, s.program)));
    }
}

/// The sequencer performs its program.
///
/// Run from the start on an idle peripheral that admits the program, it
/// finishes with success after some number of steps, and by then the
/// peripheral is as the instructions of the program leave it when they run
/// their course one after the other.  This holds whichever DMA channel
/// completes first.
pub proof fn lemma_sequencer_performs_program(version: Version, program: Seq<Instr>, start: Wire)
    requires
        !start.tx_running,
        !start.rx_running,
        admitted(start, program),
    ensures
        exists|steps: nat|
            succeeded(
                #[trigger] run(
                    SequencerView::start(version, program),
                    start,
                    Event::Performed,
                    steps,
                ),
                wire_after(start, program),
            ),
{
    let s = SequencerView::start(version, program);
    assert(program.take(0) =~= Seq::<Instr>::empty());
    lemma_run_finishes(s, start, Event::Performed, start);
}

/// The preparation of a word-by-word transfer moves no data.
pub proof fn lemma_blocking_prologue_quiet(version: Version, current: WordSize, word_size: WordSize)
    ensures
        quiet(blocking_prologue(version, current, word_size)),
{
    let resize = word_size_program(version, current, word_size);
    assert(quiet(resize));
    let prologue = blocking_prologue(version, current, word_size);
    assert forall|i: int| 0 <= i < prologue.len() implies (#[trigger] prologue[i]).quiet() by {
        let head = prologue.len() - resize.len();
        if i >= head {
            assert(prologue[i] == resize[i - head]);
        }
    }
}

/// The word at a position of a transfer: the element of the transmit
/// buffer, or zero past its end.
pub open spec fn word_at(write: Seq<u32>, index: int) -> u32 {
    if 0 <= index < write.len() {
        write[index]
    } else {
        0
    }
}

/// The peripheral after the first `count` words of a transfer have been
/// exchanged: they have been sent, none is held back, and each has come
/// back to its position of the receive buffer, as far as that reaches.
pub open spec fn echoed(start: Wire, count: nat) -> Wire {
    Wire {
        read: Seq::new(
            start.read.len(),
            |i: int|
                if i < count {
                    word_at(start.write, i)
                } else {
                    start.read[i]
                },
        ),
        sent: Seq::new(count, |i: int| word_at(start.write, i)),
        held: Seq::empty(),
        ..start
    }
}

/// One exchange on a bus that holds no word: the word is sent, comes back
/// and is read to its slot.
pub proof fn lemma_transfer_word_on_wire(
    version: Version,
    wire: Wire,
    send: Option<usize>,
    recv: Option<usize>,
)
    requires
        wire.held.len() == 0,
    ensures
        admitted(wire, spec_transfer_word(version, send, recv)),
        wire_after(wire, spec_transfer_word(version, send, recv)) == (Wire {
            regs: registers_after(wire.regs, spec_transfer_word(version, send, recv)),
            ..wire.perform(Op::Send { to: spec_tx_register(version), slot: send }).perform(
                Op::Receive { from: spec_rx_register(version), slot: recv },
            )
        }),
{
    let a = Instr::Poll(Readiness::Transmit);
    let b = Instr::Do(Op::Send { to: spec_tx_register(version), slot: send });
    let c = modify(Register::Cr1, Patch { cstart: Some(true), ..Patch::empty() });
    let d = Instr::Poll(Readiness::Receive);
    let e = Instr::Do(Op::Receive { from: spec_rx_register(version), slot: recv });
    let none = Seq::<Instr>::empty();
    lemma_wire_after_regs(wire, spec_transfer_word(version, send, recv));
    lemma_wire_after_push(wire, none, a);
    lemma_wire_after_push(wire, none.push(a), b);
    if version.spec_is_gen3() {
        lemma_wire_after_push(wire, none.push(a).push(b), c);
        lemma_wire_after_push(wire, none.push(a).push(b).push(c), d);
        lemma_wire_after_push(wire, none.push(a).push(b).push(c).push(d), e);
        assert(spec_transfer_word(version, send, recv) =~= none.push(a).push(b).push(c).push(
            d,
        ).push(e));
    } else {
        lemma_wire_after_push(wire, none.push(a).push(b), d);
        lemma_wire_after_push(wire, none.push(a).push(b).push(d), e);
        assert(spec_transfer_word(version, send, recv) =~= none.push(a).push(b).push(d).push(e));
    }
}

/// The exchange of the first `count` words of a transfer on a bus that has
/// sent nothing and holds nothing: every word is sent in its turn and read
/// back to its position.
pub proof fn lemma_exchange_program_on_wire(version: Version, count: nat, start: Wire)
    requires
        start.write.len() <= usize::MAX,
        start.read.len() <= usize::MAX,
        start.sent.len() == 0,
        start.held.len() == 0,
    ensures
        ({
            let program = exchange_program(version, count, start.write.len(), start.read.len());
            &&& admitted(start, program)
            &&& wire_after(start, program) == (Wire {
                regs: registers_after(start.regs, program),
                ..echoed(start, count)
            })
        }),
    decreases count,
{
    let program = exchange_program(version, count, start.write.len(), start.read.len());
    lemma_wire_after_regs(start, program);
    if count == 0 {
        assert(echoed(start, 0).read =~= start.read);
        assert(echoed(start, 0).sent =~= start.sent);
        assert(echoed(start, 0).held =~= start.held);
    } else {
        let before = (count - 1) as nat;
        let send = slot(count - 1, start.write.len() as int);
        let recv = slot(count - 1, start.read.len() as int);
        let done = exchange_program(version, before, start.write.len(), start.read.len());
        let last = spec_transfer_word(version, send, recv);
        lemma_exchange_program_on_wire(version, before, start);
        lemma_wire_after_concat(start, done, last);
        let wire = wire_after(start, done);
        lemma_transfer_word_on_wire(version, wire, send, recv);
        let after = wire_after(wire, last);
        assert(wire.word(send) == word_at(start.write, count - 1));
        assert(after.sent =~= echoed(start, count).sent);
        assert(after.held =~= echoed(start, count).held);
        assert(after.read =~= echoed(start, count).read);
    }
}

/// On a looped-back bus a word-by-word transfer reads back what it sends.
///
/// Run by the sequencer from the start, the program of a transfer between
/// a transmit and a receive buffer finishes with success after some number
/// of steps.  By then one word has been sent for every position of the
/// longer buffer, the words of the transmit buffer first and zero words
/// after them; every position of the receive buffer holds the word that
/// was sent at that position; no word is left on the bus; and the control
/// fields are what the accesses of the program make of them.
pub proof fn lemma_blocking_transfer_echoes(
    version: Version,
    current: WordSize,
    word_size: WordSize,
    start: Wire,
)
    requires
        start.write.len() <= usize::MAX,
        start.read.len() <= usize::MAX,
        start.sent.len() == 0,
        start.idle(),
    ensures
        ({
            let program = blocking_program(
                version,
                current,
                word_size,
                start.write.len(),
                start.read.len(),
            );
            let count = if start.write.len() >= start.read.len() {
                start.write.len()
            } else {
                start.read.len()
            };
            exists|steps: nat|
                {
                    let (s, wire, _) = #[trigger] run(
                        SequencerView::start(version, program),
                        start,
                        Event::Performed,
                        steps,
                    );
                    &&& s.stage == Stage::Finished(Ok(()))
                    &&& wire.sent == Seq::new(count, |i: int| word_at(start.write, i))
                    &&& wire.read == Seq::new(start.read.len(), |i: int| word_at(start.write, i))
                    &&& wire.held.len() == 0
                    &&& wire.regs == registers_after(start.regs, program)
                }
        }),
{
    let count = if start.write.len() >= start.read.len() {
        start.write.len()
    } else {
        start.read.len()
    };
    let prologue = blocking_prologue(version, current, word_size);
    let exchanges = exchange_program(version, count, start.write.len(), start.read.len());
    let program = blocking_program(
        version,
        current,
        word_size,
        start.write.len(),
        start.read.len(),
    );
    lemma_blocking_prologue_quiet(version, current, word_size);
    lemma_quiet_program(start, prologue);
    let prepared = wire_after(start, prologue);
    lemma_exchange_program_on_wire(version, count, prepared);
    lemma_wire_after_concat(start, prologue, exchanges);
    lemma_wire_after_regs(start, program);
    assert(program == prologue + exchanges);
    lemma_sequencer_performs_program(version, program, start);
    let steps = choose|steps: nat|
        succeeded(
            #[trigger] run(SequencerView::start(version, program), start, Event::Performed, steps),
            wire_after(start, program),
        );
    let outcome = run(SequencerView::start(version, program), start, Event::Performed, steps);
    assert(outcome.1.sent == echoed(prepared, count).sent);
    assert(outcome.1.read =~= Seq::new(start.read.len(), |i: int| word_at(start.write, i)));
}

/// What the two accesses that end a DMA transfer do to the control fields.
proof fn lemma_rest_accesses(regs: Registers, register: Register)
    ensures
        modify(
            register,
            Patch { txdmaen: Some(false), rxdmaen: Some(false), ..Patch::empty() },
        ).effect(modify(Register::Cr1, Patch { spe: Some(false), ..Patch::empty() }).effect(regs))
            == (Registers { spe: false, txdmaen: false, rxdmaen: false, ..regs }),
{
    reveal(Registers::patched);
    let disabled = modify(Register::Cr1, Patch { spe: Some(false), ..Patch::empty() }).effect(
        regs,
    );
    assert(disabled == Registers { spe: false, ..regs });
}

/// What bringing the peripheral to rest after DMA does to its control
/// fields: it is disabled, and both DMA request enable bits are clear.
pub proof fn lemma_finish_dma_effect(version: Version, regs: Registers)
    ensures
        registers_after(regs, spec_finish_dma(version)) == (Registers {
            spe: false,
            txdmaen: false,
            rxdmaen: false,
            ..regs
        }),
{
    let register = dma_enable_register(version);
    let disable = modify(Register::Cr1, Patch { spe: Some(false), ..Patch::empty() });
    let clear = modify(
        register,
        Patch { txdmaen: Some(false), rxdmaen: Some(false), ..Patch::empty() },
    );
    let none = Seq::<Instr>::empty();
    lemma_rest_accesses(regs, register);
    match version.spec_family() {
        Family::Gen1 => {
            let quiet = Instr::Wait(Condition::NotBusy);
            lemma_registers_after_push(regs, none, quiet);
            lemma_registers_after_push(regs, none.push(quiet), disable);
            lemma_registers_after_push(regs, none.push(quiet).push(disable), clear);
            assert(spec_finish_dma(version) =~= none.push(quiet).push(disable).push(clear));
        },
        Family::Gen2 => {
            let empty = Instr::Wait(Condition::TxFifoEmpty);
            let quiet = Instr::Wait(Condition::NotBusy);
            lemma_registers_after_push(regs, none, empty);
            lemma_registers_after_push(regs, none.push(empty), quiet);
            lemma_registers_after_push(regs, none.push(empty).push(quiet), disable);
            lemma_registers_after_push(regs, none.push(empty).push(quiet).push(disable), clear);
            assert(spec_finish_dma(version) =~= none.push(empty).push(quiet).push(disable).push(
                clear,
            ));
        },
        Family::Gen3 => {
            let complete = Instr::Wait(Condition::TransferComplete);
            lemma_registers_after_push(regs, none, complete);
            lemma_registers_after_push(regs, none.push(complete), disable);
            lemma_registers_after_push(regs, none.push(complete).push(disable), clear);
            assert(spec_finish_dma(version) =~= none.push(complete).push(disable).push(clear));
        },
    }
}

/// The preparation of a DMA transfer moves no data and starts no channel.
pub proof fn lemma_dma_preparation_quiet(
    version: Version,
    current: WordSize,
    word_size: WordSize,
    both: bool,
)
    ensures
        quiet(dma_preparation(version, current, word_size, both)),
{
    let resize = word_size_program(version, current, word_size);
    let disable = seq![modify(Register::Cr1, Patch { spe: Some(false), ..Patch::empty() })];
    assert(quiet(resize));
    assert(quiet(disable));
    lemma_quiet_concat(resize, disable);
    if both {
        let drain = if version.spec_is_gen3() {
            Seq::<Instr>::empty()
        } else {
            seq![Instr::Drain { from: spec_rx_register(version) }]
        };
        let enable = seq![spec_set_rxdmaen(version, true)];
        assert(quiet(drain));
        assert(quiet(enable));
        lemma_quiet_concat(resize + disable, drain);
        lemma_quiet_concat(resize + disable + drain, enable);
    }
}

/// Starting the channels of a DMA transfer sets them to work and touches
/// nothing else.
pub proof fn lemma_dma_starts_on_wire(
    version: Version,
    count: nat,
    source: Option<TxSource>,
    wire: Wire,
)
    requires
        !wire.tx_running,
        !wire.rx_running,
    ensures
        admitted(wire, dma_starts(version, count, source)),
        wire_after(wire, dma_starts(version, count, source)) == (Wire {
            tx_running: true,
            rx_running: source is Some,
            ..wire
        }),
        registers_after(wire.regs, dma_starts(version, count, source)) == wire.regs,
{
    let none = Seq::<Instr>::empty();
    let starts = dma_starts(version, count, source);
    lemma_wire_after_regs(wire, starts);
    match source {
        Some(source) => {
            let rx = Instr::Do(
                Op::StartRxDma { from: spec_rx_register(version), count: count as usize },
            );
            let tx = Instr::Do(
                Op::StartTxDma { to: spec_tx_register(version), source, count: count as usize },
            );
            lemma_wire_after_push(wire, none, rx);
            lemma_wire_after_push(wire, none.push(rx), tx);
            assert(starts =~= none.push(rx).push(tx));
        },
        None => {
            let tx = Instr::Do(
                Op::StartTxDma {
                    to: spec_tx_register(version),
                    source: TxSource::Buffer,
                    count: count as usize,
                },
            );
            lemma_wire_after_push(wire, none, tx);
            assert(starts =~= none.push(tx));
        },
    }
}

/// The completion of a DMA transfer leaves no channel at work, and the
/// peripheral disabled with both DMA request enable bits clear.
pub proof fn lemma_dma_completion_on_wire(version: Version, wire: Wire)
    requires
        wire.held.len() == 0,
    ensures
        admitted(wire, dma_completion(version)),
        wire_after(wire, dma_completion(version)) == (Wire {
            tx_running: false,
            rx_running: false,
            regs: registers_after(wire.regs, dma_completion(version)),
            ..wire
        }),
        !registers_after(wire.regs, dma_completion(version)).spe,
        !registers_after(wire.regs, dma_completion(version)).txdmaen,
        !registers_after(wire.regs, dma_completion(version)).rxdmaen,
{
    let go = dma_go(version);
    let finish = spec_finish_dma(version);
    assert(quiet(go));
    assert(quiet(finish));
    lemma_quiet_program(wire, go);
    let going = wire_after(wire, go);
    lemma_wire_after_push(wire, go, Instr::Join);
    assert(go.push(Instr::Join) =~= go + seq![Instr::Join]);
    let joined = wire_after(wire, go + seq![Instr::Join]);
    lemma_quiet_program(joined, finish);
    lemma_wire_after_concat(wire, go + seq![Instr::Join], finish);
    lemma_wire_after_regs(wire, dma_completion(version));
    lemma_registers_after_concat(wire.regs, go + seq![Instr::Join], finish);
    lemma_finish_dma_effect(version, registers_after(wire.regs, go + seq![Instr::Join]));
}

/// A DMA transfer comes to rest, whichever channel completes first.
///
/// Run by the sequencer from the start on an idle peripheral, the program
/// of a DMA transfer, a write for no `source` and a transfer in both
/// directions else, finishes with success after some number of steps.  By
/// then no channel is at work, the peripheral is disabled and both DMA
/// request enable bits are clear.  The order in which the channels
/// complete has no part in where the peripheral ends: it is as the
/// instructions of the program leave it when they run their course one
/// after the other.
pub proof fn lemma_dma_transfer_comes_to_rest(
    version: Version,
    current: WordSize,
    word_size: WordSize,
    count: nat,
    source: Option<TxSource>,
    program: Seq<Instr>,
    start: Wire,
)
    requires
        count > 0,
        start.idle(),
        program == (match source {
            Some(source) => transfer_program(version, current, word_size, count, source),
            None => write_program(version, current, word_size, count),
        }),
    ensures
        exists|steps: nat|
            ({
                let (s, wire, _) = #[trigger] run(
                    SequencerView::start(version, program),
                    start,
                    Event::Performed,
                    steps,
                );
                &&& s.stage == Stage::Finished(Ok(()))
                &&& wire == wire_after(start, program)
                &&& wire == Wire { regs: wire.regs, ..start }
                &&& wire.regs == registers_after(start.regs, program)
                &&& !wire.regs.spe
                &&& !wire.regs.txdmaen
                &&& !wire.regs.rxdmaen
            }),
{
    let preparation = dma_preparation(version, current, word_size, source is Some);
    let starts = dma_starts(version, count, source);
    let completion = dma_completion(version);
    lemma_dma_program_parts(version, current, word_size, count, source);

    lemma_dma_preparation_quiet(version, current, word_size, source is Some);
    lemma_quiet_program(start, preparation);
    let prepared = wire_after(start, preparation);

    lemma_dma_starts_on_wire(version, count, source, prepared);
    lemma_wire_after_concat(start, preparation, starts);
    let started = wire_after(start, preparation + starts);

    lemma_dma_completion_on_wire(version, started);
    lemma_wire_after_concat(start, preparation + starts, completion);

    lemma_wire_after_regs(start, program);
    lemma_wire_after_regs(start, preparation + starts);
    lemma_registers_after_concat(start.regs, preparation + starts, completion);

    lemma_sequencer_performs_program(version, program, start);
}

} // verus!
