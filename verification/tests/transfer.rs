use std::collections::VecDeque;

use stm32_spi::blocking::transfer_word;
use stm32_spi::config::{Config, Hertz};
use stm32_spi::dma::{finish_dma, set_rxdmaen, set_txdmaen};
use stm32_spi::error::Error;
use stm32_spi::program::{
    modify, rx_register, tx_register, Channel, Instr, Op, TxSource,
};
use stm32_spi::regs::{DataRegister, Patch, Register, Registers};
use stm32_spi::sequencer::{Action, Event, Sequencer};
use stm32_spi::spi::Spi;
use stm32_spi::status::{Condition, Readiness, Status};
use stm32_spi::version::Version;
use stm32_spi::word::WordSize;

const VERSIONS: [Version; 6] =
    [Version::V1, Version::F1, Version::V2, Version::V3, Version::V4, Version::V5];

/// A peripheral on the bench: its data out is wired to its data in.
struct Bench {
    version: Version,
    regs: Registers,
    /// Register accesses performed.
    accesses: usize,
    /// Status reads performed.
    polls: usize,
    /// Words waiting on the receive side.
    received: VecDeque<u32>,
    /// Words the far end answers with; the words sent come back where there is none.
    answers: VecDeque<u32>,
    /// Words written to the transmit data register.
    sent: Vec<u32>,
    /// Every operation performed, in order.
    ops: Vec<Op>,
    /// Every action asked for, in order.
    actions: Vec<Action>,
    /// What the status register holds at given polls, counted from one.
    script: Vec<(usize, Status)>,
    /// The order in which the DMA channels complete.
    completions: VecDeque<Channel>,
}

impl Bench {
    fn new(version: Version) -> Bench {
        Bench {
            version,
            regs: Registers::cleared(),
            accesses: 0,
            polls: 0,
            received: VecDeque::new(),
            answers: VecDeque::new(),
            sent: Vec::new(),
            ops: Vec::new(),
            actions: Vec::new(),
            script: Vec::new(),
            completions: VecDeque::new(),
        }
    }

    fn idle(&self) -> Status {
        Status {
            overrun: false,
            frame_error: false,
            mode_fault: false,
            crc_error: false,
            tx_ready: true,
            rx_ready: !self.received.is_empty(),
            busy: false,
            transfer_complete: true,
            tx_fifo_level: 0,
        }
    }

    fn status(&mut self) -> Status {
        self.polls += 1;
        for (at, status) in &self.script {
            if *at == self.polls {
                return *status;
            }
        }
        self.idle()
    }

    fn perform(&mut self, op: Op, write: &[u32], read: &mut [u32]) {
        self.ops.push(op);
        match op {
            Op::Modify(_, patch) => {
                self.regs.apply(patch);
                self.accesses += 1;
            }
            Op::Send { to, slot } => {
                assert_eq!(to, tx_register(self.version));
                let word = match slot {
                    Some(i) => write[i],
                    None => 0,
                };
                self.sent.push(word);
                let answer = self.answers.pop_front().unwrap_or(word);
                self.received.push_back(answer);
            }
            Op::Receive { from, slot } => {
                assert_eq!(from, rx_register(self.version));
                let word = self.received.pop_front().expect("a word to read");
                if let Some(i) = slot {
                    read[i] = word;
                }
            }
            _ => {}
        }
    }

    fn run(&mut self, program: Vec<Instr>, write: &[u32], read: &mut [u32]) -> Result<(), Error> {
        let mut sequencer = Sequencer::new(self.version, program);
        assert_eq!(sequencer.result(), None);
        let mut event = Event::Performed;
        for _ in 0..100_000 {
            let action = sequencer.step(event);
            self.actions.push(action);
            match action {
                Action::Finished(result) => {
                    assert_eq!(sequencer.result(), Some(result));
                    assert_eq!(sequencer.step(Event::Performed), Action::Finished(result));
                    assert_eq!(sequencer.step(Event::Status(self.idle())), Action::Finished(result));
                    return result;
                }
                Action::ReadStatus => {
                    event = Event::Status(self.status());
                }
                Action::AwaitDma => {
                    event = match self.completions.pop_front() {
                        Some(channel) => Event::Completed(channel),
                        None => Event::Performed,
                    };
                }
                Action::Do(op) => {
                    self.perform(op, write, read);
                    event = Event::Performed;
                }
            }
        }
        panic!("the program does not end");
    }
}

fn fresh(version: Version) -> (Spi, Bench) {
    let (spi, init) = Spi::new(version, Hertz(8_000_000), Config::default());
    let mut bench = Bench::new(version);
    assert_eq!(bench.run(init, &[], &mut []), Ok(()));
    bench.ops.clear();
    bench.actions.clear();
    bench.accesses = 0;
    bench.polls = 0;
    (spi, bench)
}

fn quiet() -> Status {
    Status {
        overrun: false,
        frame_error: false,
        mode_fault: false,
        crc_error: false,
        tx_ready: false,
        rx_ready: false,
        busy: false,
        transfer_complete: false,
        tx_fifo_level: 0,
    }
}

#[test]
fn blocking_transfer_echoes_on_a_loopback() {
    for version in VERSIONS {
        let (mut spi, mut bench) = fresh(version);
        let write = [0x11u8, 0x22, 0x33];
        let read = [0u8, 0, 0];
        let program = spi.blocking_transfer(&read, &write);
        let mut read = [0u32; 3];
        assert_eq!(bench.run(program, &[0x11, 0x22, 0x33], &mut read), Ok(()));
        assert_eq!(read, [0x11, 0x22, 0x33]);
        assert_eq!(bench.sent, vec![0x11, 0x22, 0x33]);
        assert!(bench.received.is_empty());
    }
}

#[test]
fn blocking_transfer_pads_a_short_write_with_zeros() {
    for version in VERSIONS {
        let (mut spi, mut bench) = fresh(version);
        let program = spi.blocking_transfer(&[0u8; 4], &[0xa1u8, 0xa2]);
        let mut read = [0xffu32; 4];
        assert_eq!(bench.run(program, &[0xa1, 0xa2], &mut read), Ok(()));
        assert_eq!(bench.sent, vec![0xa1, 0xa2, 0, 0]);
        assert_eq!(read, [0xa1, 0xa2, 0, 0]);
    }
}

#[test]
fn blocking_transfer_drops_what_a_short_read_cannot_hold() {
    for version in VERSIONS {
        let (mut spi, mut bench) = fresh(version);
        let program = spi.blocking_transfer(&[0u8; 2], &[1u8, 2, 3, 4, 5]);
        let mut read = [0u32; 2];
        assert_eq!(bench.run(program, &[1, 2, 3, 4, 5], &mut read), Ok(()));
        assert_eq!(bench.sent, vec![1, 2, 3, 4, 5]);
        assert_eq!(read, [1, 2]);
        assert!(bench.received.is_empty());
    }
}

#[test]
fn blocking_transfer_of_nothing_only_prepares() {
    for version in VERSIONS {
        let (mut spi, mut bench) = fresh(version);
        let none: [u8; 0] = [];
        let program = spi.blocking_transfer(&none, &none);
        assert_eq!(bench.run(program, &[], &mut []), Ok(()));
        assert_eq!(bench.sent, Vec::<u32>::new());
        assert_eq!(
            bench.ops,
            vec![Op::Modify(Register::Cr1, Patch { spe: Some(true), ..Patch::empty() })]
        );
    }
}

#[test]
fn blocking_write_sends_every_word_and_keeps_none() {
    for version in VERSIONS {
        let (mut spi, mut bench) = fresh(version);
        let program = spi.blocking_write(&[7u16, 8, 9]);
        assert_eq!(spi.current_word_size(), WordSize { bits: 16 });
        assert_eq!(bench.run(program, &[7, 8, 9], &mut []), Ok(()));
        assert_eq!(bench.sent, vec![7, 8, 9]);
        assert!(bench.received.is_empty());
    }
}

#[test]
fn blocking_read_sends_zeros_and_keeps_the_answers() {
    for version in VERSIONS {
        let (mut spi, mut bench) = fresh(version);
        bench.answers = VecDeque::from(vec![0x51, 0x52, 0x53, 0x54]);
        let program = spi.blocking_read(&[0u8; 4]);
        let mut read = [0u32; 4];
        assert_eq!(bench.run(program, &[], &mut read), Ok(()));
        assert_eq!(bench.sent, vec![0, 0, 0, 0]);
        assert_eq!(read, [0x51, 0x52, 0x53, 0x54]);
    }
}

#[test]
fn blocking_transfer_in_place_swaps_each_word() {
    for version in VERSIONS {
        let (mut spi, mut bench) = fresh(version);
        bench.answers = VecDeque::from(vec![0xe1, 0xe2]);
        let program = spi.blocking_transfer_in_place(&[0u8; 2]);
        let mut read = [0u32; 2];
        assert_eq!(bench.run(program, &[0xd1, 0xd2], &mut read), Ok(()));
        assert_eq!(bench.sent, vec![0xd1, 0xd2]);
        assert_eq!(read, [0xe1, 0xe2]);
    }
}

#[test]
fn words_alternate_strictly() {
    for version in VERSIONS {
        let (mut spi, mut bench) = fresh(version);
        let program = spi.blocking_transfer_in_place(&[0u8; 3]);
        assert_eq!(bench.run(program, &[1, 2, 3], &mut [0; 3]), Ok(()));
        let moves: Vec<Op> = bench
            .ops
            .iter()
            .copied()
            .filter(|op| matches!(op, Op::Send { .. } | Op::Receive { .. }))
            .collect();
        let tx = tx_register(version);
        let rx = rx_register(version);
        assert_eq!(
            moves,
            vec![
                Op::Send { to: tx, slot: Some(0) },
                Op::Receive { from: rx, slot: Some(0) },
                Op::Send { to: tx, slot: Some(1) },
                Op::Receive { from: rx, slot: Some(1) },
                Op::Send { to: tx, slot: Some(2) },
                Op::Receive { from: rx, slot: Some(2) },
            ]
        );
    }
}

#[test]
fn one_exchange_on_each_generation() {
    assert_eq!(
        transfer_word(Version::V1, Some(3), None),
        vec![
            Instr::Poll(Readiness::Transmit),
            Instr::Do(Op::Send { to: DataRegister::Dr, slot: Some(3) }),
            Instr::Poll(Readiness::Receive),
            Instr::Do(Op::Receive { from: DataRegister::Dr, slot: None }),
        ]
    );
    assert_eq!(
        transfer_word(Version::V2, None, Some(0)),
        vec![
            Instr::Poll(Readiness::Transmit),
            Instr::Do(Op::Send { to: DataRegister::Dr16, slot: None }),
            Instr::Poll(Readiness::Receive),
            Instr::Do(Op::Receive { from: DataRegister::Dr16, slot: Some(0) }),
        ]
    );
    assert_eq!(
        transfer_word(Version::V5, Some(1), Some(1)),
        vec![
            Instr::Poll(Readiness::Transmit),
            Instr::Do(Op::Send { to: DataRegister::Txdr32, slot: Some(1) }),
            modify(Register::Cr1, Patch { cstart: Some(true), ..Patch::empty() }),
            Instr::Poll(Readiness::Receive),
            Instr::Do(Op::Receive { from: DataRegister::Rxdr32, slot: Some(1) }),
        ]
    );
}

#[test]
fn overrun_on_the_second_poll_ends_a_write() {
    for version in VERSIONS {
        let (mut spi, mut bench) = fresh(version);
        // the drain of the first two generations takes the first poll
        let drain_polls = if version.is_gen3() { 0 } else { 1 };
        bench.script =
            vec![(drain_polls + 2, Status { overrun: true, tx_ready: true, ..quiet() })];
        let program = spi.blocking_write(&[0xa0u8, 0xb0, 0xc0]);
        assert_eq!(bench.run(program, &[0xa0, 0xb0, 0xc0], &mut []), Err(Error::Overrun));
        assert_eq!(bench.sent, vec![0xa0]);
        assert!(!bench.sent.contains(&0xc0));
        assert_eq!(bench.polls, drain_polls + 2);
    }
}

#[test]
fn an_error_while_waiting_to_transmit_sends_nothing() {
    for version in VERSIONS {
        let (mut spi, mut bench) = fresh(version);
        let drain_polls = if version.is_gen3() { 0 } else { 1 };
        bench.script = vec![(drain_polls + 1, Status { mode_fault: true, ..quiet() })];
        let program = spi.blocking_transfer_in_place(&[0u8; 2]);
        assert_eq!(bench.run(program, &[1, 2], &mut [0; 2]), Err(Error::ModeFault));
        assert_eq!(bench.sent, Vec::<u32>::new());
    }
}

#[test]
fn each_error_flag_comes_out_of_a_transfer() {
    let flags = [
        (Status { overrun: true, ..quiet() }, Error::Overrun),
        (Status { frame_error: true, ..quiet() }, Error::Framing),
        (Status { mode_fault: true, ..quiet() }, Error::ModeFault),
        (Status { crc_error: true, ..quiet() }, Error::Crc),
    ];
    for (status, error) in flags {
        let (mut spi, mut bench) = fresh(Version::V3);
        bench.script = vec![(4, status)];
        let program = spi.blocking_write(&[1u8, 2, 3]);
        assert_eq!(bench.run(program, &[1, 2, 3], &mut []), Err(error));
        assert_eq!(bench.sent, vec![1, 2]);
    }
}

#[test]
fn a_slow_peripheral_is_waited_for() {
    for version in VERSIONS {
        let (mut spi, mut bench) = fresh(version);
        let drain_polls = if version.is_gen3() { 0 } else { 1 };
        bench.script = vec![
            (drain_polls + 1, quiet()),
            (drain_polls + 2, quiet()),
            (drain_polls + 3, Status { rx_ready: true, ..quiet() }),
        ];
        let program = spi.blocking_transfer_in_place(&[0u8; 1]);
        let mut read = [0u32; 1];
        assert_eq!(bench.run(program, &[0x5a], &mut read), Ok(()));
        assert_eq!(read, [0x5a]);
        // three polls in vain, one that lets the word out, one that lets it in
        assert_eq!(bench.polls, drain_polls + 5);
    }
}

#[test]
fn stale_words_are_drained_before_a_transfer() {
    for version in [Version::V1, Version::F1, Version::V2] {
        let (mut spi, mut bench) = fresh(version);
        bench.received = VecDeque::from(vec![0xdead, 0xbeef]);
        let program = spi.blocking_transfer_in_place(&[0u8; 2]);
        let mut read = [0u32; 2];
        assert_eq!(bench.run(program, &[0x01, 0x02], &mut read), Ok(()));
        assert_eq!(read, [0x01, 0x02]);
        let rx = rx_register(version);
        assert_eq!(
            bench.ops[..3],
            [
                Op::Modify(Register::Cr1, Patch { spe: Some(true), ..Patch::empty() }),
                Op::Receive { from: rx, slot: None },
                Op::Receive { from: rx, slot: None },
            ]
        );
    }
}

#[test]
fn the_third_generation_does_not_drain() {
    for version in [Version::V3, Version::V4, Version::V5] {
        let (mut spi, _) = fresh(version);
        let program = spi.blocking_write(&[1u8]);
        assert!(!program.iter().any(|instr| matches!(instr, Instr::Drain { .. })));
        let program = spi.read(&[0u8; 4]);
        assert!(!program.iter().any(|instr| matches!(instr, Instr::Drain { .. })));
    }
    for version in [Version::V1, Version::F1, Version::V2] {
        let (mut spi, _) = fresh(version);
        let program = spi.blocking_write(&[1u8]);
        assert_eq!(program[1], Instr::Drain { from: rx_register(version) });
    }
}

#[test]
fn the_third_generation_waits_for_the_transfer_before_it_resizes() {
    let (mut spi, mut bench) = fresh(Version::V3);
    bench.script = vec![(1, quiet()), (2, quiet()), (3, quiet())];
    let program = spi.set_word_size(WordSize { bits: 24 });
    assert_eq!(bench.run(program, &[], &mut []), Ok(()));
    assert_eq!(bench.polls, 4);
    assert_eq!(bench.accesses, 4);
    assert_eq!(bench.regs.dsize, 23);
    assert!(bench.regs.spe);
    assert!(!bench.regs.csusp);
}

#[test]
fn empty_dma_transfers_do_nothing() {
    for version in VERSIONS {
        let (mut spi, mut bench) = fresh(version);
        let none: [u16; 0] = [];
        let before = bench.regs;

        let programs = vec![
            spi.transfer(&none, &none),
            spi.read(&none),
            spi.write(&none),
            spi.transfer_in_place(&none),
        ];
        for program in programs {
            assert_eq!(program, vec![]);
            assert_eq!(bench.run(program, &[], &mut []), Ok(()));
        }
        assert_eq!(bench.ops, vec![]);
        assert_eq!(bench.accesses, 0);
        assert_eq!(bench.polls, 0);
        assert_eq!(bench.regs, before);
        // not even the word size has changed
        assert_eq!(spi.current_word_size(), WordSize { bits: 8 });
    }
}

#[test]
fn empty_dma_transfers_need_no_channel() {
    let (mut spi, _) = Spi::new_blocking(Version::V2, Hertz(8_000_000), Config::default());
    assert!(!spi.has_tx_dma());
    let none: [u8; 0] = [];
    assert_eq!(spi.write(&none), vec![]);
    assert_eq!(spi.read(&none), vec![]);
    assert_eq!(spi.transfer(&none, &none), vec![]);
    assert_eq!(spi.transfer_in_place(&none), vec![]);
}

#[test]
fn dma_write_on_the_first_generation() {
    let (mut spi, _) = fresh(Version::V1);
    let program = spi.write(&[1u16, 2, 3]);
    assert_eq!(
        program,
        vec![
            modify(
                Register::Cr1,
                Patch {
                    spe: Some(false),
                    dff: Some(stm32_spi::regs::Dff::Bits16),
                    ..Patch::empty()
                }
            ),
            modify(Register::Cr1, Patch { spe: Some(true), ..Patch::empty() }),
            modify(Register::Cr1, Patch { spe: Some(false), ..Patch::empty() }),
            Instr::Do(Op::StartTxDma { to: DataRegister::Dr, source: TxSource::Buffer, count: 3 }),
            modify(Register::Cr2, Patch { txdmaen: Some(true), ..Patch::empty() }),
            modify(Register::Cr1, Patch { spe: Some(true), ..Patch::empty() }),
            Instr::Join,
            Instr::Wait(Condition::NotBusy),
            modify(Register::Cr1, Patch { spe: Some(false), ..Patch::empty() }),
            modify(
                Register::Cr2,
                Patch { txdmaen: Some(false), rxdmaen: Some(false), ..Patch::empty() }
            ),
        ]
    );
}

#[test]
fn dma_read_clocks_the_bus_with_zero_bytes() {
    let (mut spi, _) = fresh(Version::V2);
    let program = spi.read(&[0u8; 5]);
    assert_eq!(
        program,
        vec![
            modify(Register::Cr1, Patch { spe: Some(false), ..Patch::empty() }),
            Instr::Drain { from: DataRegister::Dr16 },
            modify(Register::Cr2, Patch { rxdmaen: Some(true), ..Patch::empty() }),
            Instr::Do(Op::StartRxDma { from: DataRegister::Dr16, count: 5 }),
            Instr::Do(Op::StartTxDma {
                to: DataRegister::Dr16,
                source: TxSource::Repeated(0x00),
                count: 5
            }),
            modify(Register::Cr2, Patch { txdmaen: Some(true), ..Patch::empty() }),
            modify(Register::Cr1, Patch { spe: Some(true), ..Patch::empty() }),
            Instr::Join,
            Instr::Wait(Condition::TxFifoEmpty),
            Instr::Wait(Condition::NotBusy),
            modify(Register::Cr1, Patch { spe: Some(false), ..Patch::empty() }),
            modify(
                Register::Cr2,
                Patch { txdmaen: Some(false), rxdmaen: Some(false), ..Patch::empty() }
            ),
        ]
    );
}

#[test]
fn dma_transfer_on_the_third_generation() {
    let (mut spi, _) = fresh(Version::V4);
    let program = spi.transfer(&[0u8; 2], &[9u8, 9]);
    assert_eq!(
        program,
        vec![
            modify(Register::Cr1, Patch { spe: Some(false), ..Patch::empty() }),
            modify(Register::Cfg1, Patch { rxdmaen: Some(true), ..Patch::empty() }),
            Instr::Do(Op::StartRxDma { from: DataRegister::Rxdr32, count: 2 }),
            Instr::Do(Op::StartTxDma {
                to: DataRegister::Txdr32,
                source: TxSource::Buffer,
                count: 2
            }),
            modify(Register::Cfg1, Patch { txdmaen: Some(true), ..Patch::empty() }),
            modify(Register::Cr1, Patch { spe: Some(true), ..Patch::empty() }),
            modify(Register::Cr1, Patch { cstart: Some(true), ..Patch::empty() }),
            Instr::Join,
            Instr::Wait(Condition::TransferComplete),
            modify(Register::Cr1, Patch { spe: Some(false), ..Patch::empty() }),
            modify(
                Register::Cfg1,
                Patch { txdmaen: Some(false), rxdmaen: Some(false), ..Patch::empty() }
            ),
        ]
    );
    assert_eq!(spi.transfer_in_place(&[0u8; 2]), program);
}

#[test]
fn dma_request_enables_live_where_the_generation_has_them() {
    for version in [Version::V1, Version::F1, Version::V2] {
        assert_eq!(
            set_txdmaen(version, true),
            modify(Register::Cr2, Patch { txdmaen: Some(true), ..Patch::empty() })
        );
        assert_eq!(
            set_rxdmaen(version, false),
            modify(Register::Cr2, Patch { rxdmaen: Some(false), ..Patch::empty() })
        );
    }
    for version in [Version::V3, Version::V4, Version::V5] {
        assert_eq!(
            set_txdmaen(version, false),
            modify(Register::Cfg1, Patch { txdmaen: Some(false), ..Patch::empty() })
        );
        assert_eq!(
            set_rxdmaen(version, true),
            modify(Register::Cfg1, Patch { rxdmaen: Some(true), ..Patch::empty() })
        );
    }
}

#[test]
fn the_channels_may_complete_in_either_order() {
    for version in VERSIONS {
        let mut runs = Vec::new();
        for order in [[Channel::Tx, Channel::Rx], [Channel::Rx, Channel::Tx]] {
            let (mut spi, mut bench) = fresh(version);
            bench.completions = VecDeque::from(order.to_vec());
            let program = spi.transfer(&[0u8; 4], &[1u8, 2, 3, 4]);
            assert_eq!(bench.run(program, &[1, 2, 3, 4], &mut [0; 4]), Ok(()));
            assert!(bench.completions.is_empty());
            let suspensions =
                bench.actions.iter().filter(|a| matches!(a, Action::AwaitDma)).count();
            assert_eq!(suspensions, 2);
            assert!(!bench.regs.spe);
            assert!(!bench.regs.txdmaen);
            assert!(!bench.regs.rxdmaen);
            runs.push((bench.actions, bench.ops, bench.regs, bench.polls));
        }
        assert_eq!(runs[0], runs[1]);
    }
}

#[test]
fn nothing_is_finished_before_both_channels_are() {
    let (mut spi, _) = fresh(Version::V1);
    let program = spi.transfer(&[0u8; 1], &[1u8]);
    let mut sequencer = Sequencer::new(Version::V1, program);
    let mut action = sequencer.step(Event::Performed);
    while action != Action::AwaitDma {
        assert!(matches!(action, Action::Do(_) | Action::ReadStatus));
        action = match action {
            Action::ReadStatus => sequencer.step(Event::Status(quiet())),
            _ => sequencer.step(Event::Performed),
        };
    }
    assert_eq!(sequencer.step(Event::Performed), Action::AwaitDma);
    assert_eq!(sequencer.step(Event::Completed(Channel::Rx)), Action::AwaitDma);
    assert_eq!(sequencer.step(Event::Completed(Channel::Rx)), Action::AwaitDma);
    assert_eq!(sequencer.step(Event::Status(quiet())), Action::AwaitDma);
    // the transmit channel was the last one out
    assert_eq!(sequencer.step(Event::Completed(Channel::Tx)), Action::ReadStatus);
}

#[test]
fn a_dma_write_waits_for_its_one_channel() {
    let (mut spi, mut bench) = fresh(Version::V2);
    bench.completions = VecDeque::from(vec![Channel::Tx]);
    let program = spi.write(&[1u8, 2]);
    assert_eq!(bench.run(program, &[1, 2], &mut []), Ok(()));
    let suspensions = bench.actions.iter().filter(|a| matches!(a, Action::AwaitDma)).count();
    assert_eq!(suspensions, 1);
}

#[test]
fn finishing_dma_waits_until_the_bus_is_quiet() {
    assert_eq!(
        finish_dma(Version::F1),
        vec![
            Instr::Wait(Condition::NotBusy),
            modify(Register::Cr1, Patch { spe: Some(false), ..Patch::empty() }),
            modify(
                Register::Cr2,
                Patch { txdmaen: Some(false), rxdmaen: Some(false), ..Patch::empty() }
            ),
        ]
    );

    let mut bench = Bench::new(Version::V2);
    bench.regs.spe = true;
    bench.regs.txdmaen = true;
    bench.regs.rxdmaen = true;
    let full = Status { tx_fifo_level: 2, busy: true, ..quiet() };
    let shifting = Status { tx_fifo_level: 0, busy: true, ..quiet() };
    bench.script = vec![(1, full), (2, full), (3, shifting), (4, shifting), (5, shifting)];
    assert_eq!(bench.run(finish_dma(Version::V2), &[], &mut []), Ok(()));
    // two polls with words in the FIFO, one that finds it empty, three that find the bus
    // busy (the poll that found the FIFO empty is not used twice), one that finds it quiet
    assert_eq!(bench.polls, 6);
    assert!(!bench.regs.spe);
    assert!(!bench.regs.txdmaen);
    assert!(!bench.regs.rxdmaen);

    let mut bench = Bench::new(Version::V5);
    bench.script = vec![(1, quiet()), (2, quiet())];
    assert_eq!(bench.run(finish_dma(Version::V5), &[], &mut []), Ok(()));
    assert_eq!(bench.polls, 3);
}

#[test]
fn dma_does_not_look_at_error_flags() {
    for version in VERSIONS {
        let (mut spi, mut bench) = fresh(version);
        bench.completions = VecDeque::from(vec![Channel::Rx, Channel::Tx]);
        let broken = Status {
            overrun: true,
            frame_error: true,
            mode_fault: true,
            crc_error: true,
            transfer_complete: true,
            ..quiet()
        };
        bench.script = (1..32).map(|poll| (poll, broken)).collect();
        let program = spi.transfer_in_place(&[0u8; 8]);
        assert_eq!(bench.run(program, &[0; 8], &mut [0; 8]), Ok(()));
    }
}

#[test]
fn an_empty_program_finishes_at_once() {
    let mut sequencer = Sequencer::new(Version::V1, Vec::new());
    assert_eq!(sequencer.step(Event::Performed), Action::Finished(Ok(())));
    assert_eq!(sequencer.result(), Some(Ok(())));
    assert_eq!(sequencer.step(Event::Completed(Channel::Tx)), Action::Finished(Ok(())));
}

#[test]
fn a_join_without_channels_takes_one_turn() {
    let mut sequencer = Sequencer::new(Version::V1, vec![Instr::Join]);
    assert_eq!(sequencer.step(Event::Performed), Action::AwaitDma);
    assert_eq!(sequencer.step(Event::Performed), Action::Finished(Ok(())));
}

#[test]
fn a_drain_on_the_third_generation_reads_no_word() {
    for version in [Version::V3, Version::V4, Version::V5] {
        let mut sequencer =
            Sequencer::new(version, vec![Instr::Drain { from: rx_register(version) }]);
        assert_eq!(sequencer.step(Event::Performed), Action::ReadStatus);
        let held = Status { rx_ready: true, ..quiet() };
        assert_eq!(sequencer.step(Event::Status(held)), Action::Finished(Ok(())));
    }
    for version in [Version::V1, Version::F1, Version::V2] {
        let from = rx_register(version);
        let mut sequencer = Sequencer::new(version, vec![Instr::Drain { from }]);
        assert_eq!(sequencer.step(Event::Performed), Action::ReadStatus);
        let held = Status { rx_ready: true, ..quiet() };
        assert_eq!(
            sequencer.step(Event::Status(held)),
            Action::Do(Op::Receive { from, slot: None })
        );
        assert_eq!(sequencer.step(Event::Performed), Action::ReadStatus);
        assert_eq!(sequencer.step(Event::Status(quiet())), Action::Finished(Ok(())));
    }
}

#[test]
fn a_transfer_between_buffers_of_different_lengths_is_not_admitted() {
    for version in VERSIONS {
        let (spi, _) = Spi::new(version, Hertz(8_000_000), Config::default());
        assert!(spi.admits_transfer(&[0u8; 3], &[0u8; 3]));
        assert!(spi.admits_transfer(&[0u8; 0], &[0u8; 0]));
        assert!(!spi.admits_transfer(&[0u8; 3], &[0u8; 2]));
        assert!(!spi.admits_transfer(&[0u8; 0], &[0u8; 1]));
        assert!(!spi.admits_transfer(&[0u8; 4], &[0u8; 0]));
        assert_eq!(spi.current_word_size(), WordSize { bits: 8 });
    }
}

#[test]
fn a_transfer_is_admitted_only_with_both_channels_and_a_size_that_fits() {
    let (spi, _) = Spi::new_txonly(Version::V2, Hertz(8_000_000), Config::default());
    assert!(!spi.admits_transfer(&[0u8; 1], &[0u8; 1]));
    assert!(spi.admits_transfer(&[0u8; 0], &[0u8; 0]));
    let (spi, _) = Spi::new(Version::V2, Hertz(8_000_000), Config::default());
    assert!(spi.admits_transfer(&[0u16; 1], &[0u16; 1]));
    assert!(!spi.admits_transfer(&[0u32; 1], &[0u32; 1]));
    let (spi, _) = Spi::new(Version::V1, Hertz(8_000_000), Config::default());
    assert!(!spi.admits_transfer(&[stm32_spi::word::U12(0); 1], &[stm32_spi::word::U12(0); 1]));
}
