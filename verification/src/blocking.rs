//! Transfers that move one word at a time under the eyes of the processor.
//!
//! The bus is full duplex: every word that is sent brings one word back.
//! A program therefore alternates strictly, word by word: wait until the
//! peripheral takes a word, send it, wait until the answer is there, read
//! it.  It never sends ahead, because the receive side holds few words and
//! would overrun.

use vstd::prelude::*;
use crate::program::{modify, rx_register, spec_rx_register, spec_tx_register, tx_register, Instr, Op};
use crate::regs::{Patch, Register};
use crate::spi::{word_size_program, Spi, SpiView};
use crate::status::Readiness;
use crate::version::Version;
use crate::word::{Word, WordSize};

verus! {

/// The element of a buffer of `len` words that position `index` of a
/// transfer falls on, or `None` past the buffer's end.
pub open spec fn slot(index: int, len: int) -> Option<usize> {
    if 0 <= index < len {
        Some(index as usize)
    } else {
        None
    }
}

/// The instructions that exchange one word.
///
/// The word from `send` goes out once the peripheral takes it, and the word
/// that comes back goes to `recv` once it is there.  Either wait gives the
/// program up when an error flag shows.  The third generation has to be
/// told to start after the word is written.
pub open spec fn spec_transfer_word(version: Version, send: Option<usize>, recv: Option<usize>) -> Seq<
    Instr,
> {
    let write = Instr::Do(Op::Send { to: spec_tx_register(version), slot: send });
    let read = Instr::Do(Op::Receive { from: spec_rx_register(version), slot: recv });
    if version.spec_is_gen3() {
        seq![
            Instr::Poll(Readiness::Transmit),
            write,
            modify(Register::Cr1, Patch { cstart: Some(true), ..Patch::empty() }),
            Instr::Poll(Readiness::Receive),
            read,
        ]
    } else {
        seq![Instr::Poll(Readiness::Transmit), write, Instr::Poll(Readiness::Receive), read]
    }
}

/// The instructions that exchange one word.
pub fn transfer_word(version: Version, send: Option<usize>, recv: Option<usize>) -> (program: Vec<
    Instr,
>)
    ensures
        program@ == spec_transfer_word(version, send, recv),
{
    let mut program: Vec<Instr> = Vec::new();
    program.push(Instr::Poll(Readiness::Transmit));
    program.push(Instr::Do(Op::Send { to: tx_register(version), slot: send }));
    if version.is_gen3() {
        program.push(modify(Register::Cr1, Patch { cstart: Some(true), ..Patch::empty() }));
    }
    program.push(Instr::Poll(Readiness::Receive));
    program.push(Instr::Do(Op::Receive { from: rx_register(version), slot: recv }));
    program
}

/// The instructions that exchange the first `count` words of a transfer
/// that sends from a buffer of `write_len` words and receives into one of
/// `read_len` words.
///
/// Past the end of the transmit buffer zero words are sent; past the end of
/// the receive buffer what comes back is thrown away.
pub open spec fn exchange_program(version: Version, count: nat, write_len: nat, read_len: nat) -> Seq<
    Instr,
>
    decreases count,
{
    if count == 0 {
        Seq::empty()
    } else {
        exchange_program(version, (count - 1) as nat, write_len, read_len) + spec_transfer_word(
            version,
            slot(count - 1, write_len as int),
            slot(count - 1, read_len as int),
        )
    }
}

/// The instructions that prepare a word-by-word transfer: the peripheral is
/// enabled, stale received words are drained, and the word size is set.
///
/// The third generation needs no drain: it empties its receive side
/// whenever it is disabled.
pub open spec fn blocking_prologue(version: Version, current: WordSize, word_size: WordSize) -> Seq<
    Instr,
> {
    let enable = seq![modify(Register::Cr1, Patch { spe: Some(true), ..Patch::empty() })];
    let drain = if version.spec_is_gen3() {
        Seq::empty()
    } else {
        seq![Instr::Drain { from: spec_rx_register(version) }]
    };
    enable + drain + word_size_program(version, current, word_size)
}

/// The program of a word-by-word transfer of `max(write_len, read_len)`
/// words.
pub open spec fn blocking_program(
    version: Version,
    current: WordSize,
    word_size: WordSize,
    write_len: nat,
    read_len: nat,
) -> Seq<Instr> {
    let count = if write_len >= read_len {
        write_len
    } else {
        read_len
    };
    blocking_prologue(version, current, word_size) + exchange_program(
        version,
        count,
        write_len,
        read_len,
    )
}

impl Spi {
    /// Builds the program of a word-by-word transfer.
    fn blocking(&mut self, word_size: WordSize, write_len: usize, read_len: usize) -> (program: Vec<
        Instr,
    >)
        requires
            word_size.spec_supported(old(self)@.version),
        ensures
            final(self)@ == (SpiView { current_word_size: word_size, ..old(self)@ }),
            program@ == blocking_program(
                old(self)@.version,
                old(self)@.current_word_size,
                word_size,
                write_len as nat,
                read_len as nat,
            ),
    {
        let version = self.version();
        let ghost current = self@.current_word_size;
        let mut program: Vec<Instr> = Vec::new();
        program.push(modify(Register::Cr1, Patch { spe: Some(true), ..Patch::empty() }));
        if !version.is_gen3() {
            program.push(Instr::Drain { from: rx_register(version) });
        }
        let mut resize = self.set_word_size(word_size);
        program.append(&mut resize);
        let count = if write_len >= read_len {
            write_len
        } else {
            read_len
        };
        let mut i: usize = 0;
        while i < count
            invariant
                i <= count,
                program@ == blocking_prologue(version, current, word_size) + exchange_program(
                    version,
                    i as nat,
                    write_len as nat,
                    read_len as nat,
                ),
            decreases count - i,
        {
            let send = if i < write_len {
                Some(i)
            } else {
                None
            };
            let recv = if i < read_len {
                Some(i)
            } else {
                None
            };
            let mut exchange = transfer_word(version, send, recv);
            program.append(&mut exchange);
            i = i + 1;
        }
        program
    }

    /// Blocking write.
    ///
    /// Every word of `words` is sent; what comes back is thrown away.
    pub fn blocking_write<W: Word>(&mut self, words: &[W]) -> (program: Vec<Instr>)
        requires
            W::spec_size().spec_supported(old(self)@.version),
        ensures
            final(self)@ == (SpiView { current_word_size: W::spec_size(), ..old(self)@ }),
            program@ == blocking_program(
                old(self)@.version,
                old(self)@.current_word_size,
                W::spec_size(),
                words@.len(),
                0,
            ),
    {
        self.blocking(W::size(), words.len(), 0)
    }

    /// Blocking read.
    ///
    /// A zero word is sent for every word of `words` that is to be filled.
    pub fn blocking_read<W: Word>(&mut self, words: &[W]) -> (program: Vec<Instr>)
        requires
            W::spec_size().spec_supported(old(self)@.version),
        ensures
            final(self)@ == (SpiView { current_word_size: W::spec_size(), ..old(self)@ }),
            program@ == blocking_program(
                old(self)@.version,
                old(self)@.current_word_size,
                W::spec_size(),
                0,
                words@.len(),
            ),
    {
        self.blocking(W::size(), 0, words.len())
    }

    /// Blocking in-place bidirectional transfer.
    ///
    /// This writes the contents of `words` on MOSI, and puts the received data on MISO in
    /// `words`, at the same time.
    pub fn blocking_transfer_in_place<W: Word>(&mut self, words: &[W]) -> (program: Vec<Instr>)
        requires
            W::spec_size().spec_supported(old(self)@.version),
        ensures
            final(self)@ == (SpiView { current_word_size: W::spec_size(), ..old(self)@ }),
            program@ == blocking_program(
                old(self)@.version,
                old(self)@.current_word_size,
                W::spec_size(),
                words@.len(),
                words@.len(),
            ),
    {
        self.blocking(W::size(), words.len(), words.len())
    }

    /// Blocking bidirectional transfer.
    ///
    /// This transfers both buffers at the same time, so it is NOT equivalent to `write`
    /// followed by `read`.
    ///
    /// The transfer runs for `max(read.len(), write.len())` words. If `read` is shorter extra
    /// words are ignored. If `write` is shorter it is padded with zero words.
    pub fn blocking_transfer<W: Word>(&mut self, read: &[W], write: &[W]) -> (program: Vec<Instr>)
        requires
            W::spec_size().spec_supported(old(self)@.version),
        ensures
            final(self)@ == (SpiView { current_word_size: W::spec_size(), ..old(self)@ }),
            program@ == blocking_program(
                old(self)@.version,
                old(self)@.current_word_size,
                W::spec_size(),
                write@.len(),
                read@.len(),
            ),
    {
        self.blocking(W::size(), write.len(), read.len())
    }
}

} // verus!
