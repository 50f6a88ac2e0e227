//! Transfers that a DMA engine carries out while the caller is suspended.
//!
//! The driver programs the peripheral and starts the channels.  It then
//! waits for every channel it started, in whichever order they complete,
//! and brings the peripheral to rest.  Error flags are not looked at on
//! this path.

use vstd::prelude::*;
use crate::program::{
    modify, rx_register, spec_modify, spec_rx_register, spec_tx_register, tx_register, Instr, Op,
    TxSource,
};
use crate::regs::{Patch, Register};
use crate::spi::{word_size_program, Spi, SpiView};
use crate::status::Condition;
use crate::version::{Family, Version};
use crate::word::{Word, WordSize};

verus! {

/// The register that holds the two DMA request enable bits.
pub open spec fn dma_enable_register(version: Version) -> Register {
    if version.spec_is_gen3() {
        Register::Cfg1
    } else {
        Register::Cr2
    }
}

/// The access that sets the transmit DMA request enable bit to `val`.
pub open spec fn spec_set_txdmaen(version: Version, val: bool) -> Instr {
    spec_modify(dma_enable_register(version), Patch { txdmaen: Some(val), ..Patch::empty() })
}

/// Lets the transmit side raise DMA requests, or stops it from doing so.
#[verifier::when_used_as_spec(spec_set_txdmaen)]
pub fn set_txdmaen(version: Version, val: bool) -> (instr: Instr)
    ensures
        instr == spec_set_txdmaen(version, val),
{
    if version.is_gen3() {
        modify(Register::Cfg1, Patch { txdmaen: Some(val), ..Patch::empty() })
    } else {
        modify(Register::Cr2, Patch { txdmaen: Some(val), ..Patch::empty() })
    }
}

/// The access that sets the receive DMA request enable bit to `val`.
pub open spec fn spec_set_rxdmaen(version: Version, val: bool) -> Instr {
    spec_modify(dma_enable_register(version), Patch { rxdmaen: Some(val), ..Patch::empty() })
}

/// Lets the receive side raise DMA requests, or stops it from doing so.
#[verifier::when_used_as_spec(spec_set_rxdmaen)]
pub fn set_rxdmaen(version: Version, val: bool) -> (instr: Instr)
    ensures
        instr == spec_set_rxdmaen(version, val),
{
    if version.is_gen3() {
        modify(Register::Cfg1, Patch { rxdmaen: Some(val), ..Patch::empty() })
    } else {
        modify(Register::Cr2, Patch { rxdmaen: Some(val), ..Patch::empty() })
    }
}

/// The instructions that bring the peripheral to rest after its DMA
/// transfers have completed.
///
/// The bus may still be shifting when the last DMA request is served.  The
/// driver waits until it is quiet: for the transfer-complete flag where the
/// peripheral has one, for the busy flag to clear where it has not; the
/// second generation first lets its transmit FIFO run empty.  Then the
/// peripheral is disabled and both DMA request enable bits are cleared,
/// which the hardware does not do by itself.
pub open spec fn spec_finish_dma(version: Version) -> Seq<Instr> {
    let quiet = match version.spec_family() {
        Family::Gen1 => seq![Instr::Wait(Condition::NotBusy)],
        Family::Gen2 => seq![Instr::Wait(Condition::TxFifoEmpty), Instr::Wait(Condition::NotBusy)],
        Family::Gen3 => seq![Instr::Wait(Condition::TransferComplete)],
    };
    quiet + seq![
        spec_modify(Register::Cr1, Patch { spe: Some(false), ..Patch::empty() }),
        spec_modify(
            dma_enable_register(version),
            Patch { txdmaen: Some(false), rxdmaen: Some(false), ..Patch::empty() },
        ),
    ]
}

/// The instructions that bring the peripheral to rest after its DMA
/// transfers have completed.
pub fn finish_dma(version: Version) -> (program: Vec<Instr>)
    ensures
        program@ == spec_finish_dma(version),
{
    let mut program: Vec<Instr> = Vec::new();
    match version.family() {
        Family::Gen1 => {
            program.push(Instr::Wait(Condition::NotBusy));
        },
        Family::Gen2 => {
            program.push(Instr::Wait(Condition::TxFifoEmpty));
            program.push(Instr::Wait(Condition::NotBusy));
        },
        Family::Gen3 => {
            program.push(Instr::Wait(Condition::TransferComplete));
        },
    }

    // Disable the spi peripheral
    program.push(modify(Register::Cr1, Patch { spe: Some(false), ..Patch::empty() }));

    // The peripheral automatically disables the DMA stream on completion without error,
    // but it does not clear the RXDMAEN/TXDMAEN flag.
    if version.is_gen3() {
        program.push(
            modify(
                Register::Cfg1,
                Patch { txdmaen: Some(false), rxdmaen: Some(false), ..Patch::empty() },
            ),
        );
    } else {
        program.push(
            modify(
                Register::Cr2,
                Patch { txdmaen: Some(false), rxdmaen: Some(false), ..Patch::empty() },
            ),
        );
    }
    program
}

/// The instructions that set a prepared DMA transfer going: the transmit
/// side may raise requests, the peripheral is enabled, and the third
/// generation is told to start.
pub open spec fn dma_go(version: Version) -> Seq<Instr> {
    let enable = seq![
        spec_set_txdmaen(version, true),
        spec_modify(Register::Cr1, Patch { spe: Some(true), ..Patch::empty() }),
    ];
    if version.spec_is_gen3() {
        enable + seq![spec_modify(Register::Cr1, Patch { cstart: Some(true), ..Patch::empty() })]
    } else {
        enable
    }
}

/// The program of a DMA write of `count` words.
///
/// Nothing at all is done for an empty buffer.  Otherwise the word size is
/// set, the peripheral is disabled while the transmit channel is started
/// on the caller's buffer, the transfer is set going, and the driver waits
/// for the channel and brings the peripheral to rest.
pub open spec fn write_program(
    version: Version,
    current: WordSize,
    word_size: WordSize,
    count: nat,
) -> Seq<Instr> {
    if count == 0 {
        Seq::empty()
    } else {
        word_size_program(version, current, word_size) + seq![
            spec_modify(Register::Cr1, Patch { spe: Some(false), ..Patch::empty() }),
            Instr::Do(
                Op::StartTxDma {
                    to: spec_tx_register(version),
                    source: TxSource::Buffer,
                    count: count as usize,
                },
            ),
        ] + dma_go(version) + seq![Instr::Join] + spec_finish_dma(version)
    }
}

/// The program of a DMA transfer of `count` words in both directions, with
/// the words to send taken from `source`.
///
/// Nothing at all is done for an empty buffer.  Otherwise the word size is
/// set and the peripheral disabled; stale received words are drained,
/// except on the third generation, which has none after a disable; the
/// receive side may raise requests; the receive channel is started, then
/// the transmit channel; the transfer is set going, and the driver waits
/// for both channels and brings the peripheral to rest.
pub open spec fn transfer_program(
    version: Version,
    current: WordSize,
    word_size: WordSize,
    count: nat,
    source: TxSource,
) -> Seq<Instr> {
    if count == 0 {
        Seq::empty()
    } else {
        let drain = if version.spec_is_gen3() {
            Seq::empty()
        } else {
            seq![Instr::Drain { from: spec_rx_register(version) }]
        };
        word_size_program(version, current, word_size) + seq![
            spec_modify(Register::Cr1, Patch { spe: Some(false), ..Patch::empty() }),
        ] + drain + seq![
            spec_set_rxdmaen(version, true),
            Instr::Do(Op::StartRxDma { from: spec_rx_register(version), count: count as usize }),
            Instr::Do(
                Op::StartTxDma { to: spec_tx_register(version), source, count: count as usize },
            ),
        ] + dma_go(version) + seq![Instr::Join] + spec_finish_dma(version)
    }
}

/// The instructions of a DMA transfer that come before a channel is
/// started.
pub open spec fn dma_preparation(
    version: Version,
    current: WordSize,
    word_size: WordSize,
    both: bool,
) -> Seq<Instr> {
    let resize = word_size_program(version, current, word_size);
    let disable = seq![modify(Register::Cr1, Patch { spe: Some(false), ..Patch::empty() })];
    if both {
        let drain = if version.spec_is_gen3() {
            Seq::empty()
        } else {
            seq![Instr::Drain { from: spec_rx_register(version) }]
        };
        resize + disable + drain + seq![spec_set_rxdmaen(version, true)]
    } else {
        resize + disable
    }
}

/// The instructions of a DMA transfer that start its channels.
pub open spec fn dma_starts(version: Version, count: nat, source: Option<TxSource>) -> Seq<Instr> {
    match source {
        Some(source) => seq![
            Instr::Do(Op::StartRxDma { from: spec_rx_register(version), count: count as usize }),
            Instr::Do(
                Op::StartTxDma { to: spec_tx_register(version), source, count: count as usize },
            ),
        ],
        None => seq![
            Instr::Do(
                Op::StartTxDma {
                    to: spec_tx_register(version),
                    source: TxSource::Buffer,
                    count: count as usize,
                },
            ),
        ],
    }
}

/// The instructions of a DMA transfer that come after its channels are
/// started: the transfer is set going and waited for, and the peripheral is
/// brought to rest.
pub open spec fn dma_completion(version: Version) -> Seq<Instr> {
    dma_go(version) + seq![Instr::Join] + spec_finish_dma(version)
}

/// A DMA transfer prepares, starts its channels and completes.
pub proof fn lemma_dma_program_parts(
    version: Version,
    current: WordSize,
    word_size: WordSize,
    count: nat,
    source: Option<TxSource>,
)
    requires
        count > 0,
    ensures
        dma_preparation(version, current, word_size, source is Some) + dma_starts(
            version,
            count,
            source,
        ) + dma_completion(version) == (match source {
            Some(source) => transfer_program(version, current, word_size, count, source),
            None => write_program(version, current, word_size, count),
        }),
{
    let parts = dma_preparation(version, current, word_size, source is Some) + dma_starts(
        version,
        count,
        source,
    ) + dma_completion(version);
    match source {
        Some(source) => {
            assert(parts =~= transfer_program(version, current, word_size, count, source));
        },
        None => {
            assert(parts =~= write_program(version, current, word_size, count));
        },
    }
}

/// What the driver knows after a DMA transfer of `count` words of size
/// `word_size`: the new word size, unless the transfer was empty.
pub open spec fn after_dma(before: SpiView, word_size: WordSize, count: nat) -> SpiView {
    if count == 0 {
        before
    } else {
        SpiView { current_word_size: word_size, ..before }
    }
}

/// Whether a driver can make a DMA transfer of words of size `word_size`
/// between a receive buffer of `read_len` words and a transmit buffer of
/// `write_len` words: the two lengths are the same, the peripheral moves
/// words of that size, and a transfer that moves any word has both
/// channels to move it.
pub open spec fn transfer_admitted(
    spi: SpiView,
    word_size: WordSize,
    read_len: nat,
    write_len: nat,
) -> bool {
    &&& read_len == write_len
    &&& word_size.spec_supported(spi.version)
    &&& read_len > 0 ==> spi.tx_dma && spi.rx_dma
}

impl Spi {
    /// Whether this driver can make a DMA transfer between the two
    /// buffers.
    pub fn admits_transfer<W: Word>(&self, read: &[W], write: &[W]) -> (admitted: bool)
        ensures
            admitted == transfer_admitted(self@, W::spec_size(), read@.len(), write@.len()),
    {
        read.len() == write.len() && W::size().supported(self.version()) && (read.len() == 0 || (
        self.has_tx_dma() && self.has_rx_dma()))
    }

    /// Appends the instructions that set a prepared DMA transfer going,
    /// wait for it and bring the peripheral to rest.
    fn run_dma(version: Version, program: &mut Vec<Instr>)
        ensures
            final(program)@ == old(program)@ + dma_go(version) + seq![Instr::Join]
                + spec_finish_dma(version),
    {
        program.push(set_txdmaen(version, true));
        program.push(modify(Register::Cr1, Patch { spe: Some(true), ..Patch::empty() }));
        if version.is_gen3() {
            program.push(modify(Register::Cr1, Patch { cstart: Some(true), ..Patch::empty() }));
        }
        program.push(Instr::Join);
        let mut finish = finish_dma(version);
        program.append(&mut finish);
    }

    /// Builds the program of a DMA transfer in both directions.
    fn duplex(&mut self, word_size: WordSize, count: usize, source: TxSource) -> (program: Vec<
        Instr,
    >)
        requires
            word_size.spec_supported(old(self)@.version),
        ensures
            final(self)@ == after_dma(old(self)@, word_size, count as nat),
            program@ == transfer_program(
                old(self)@.version,
                old(self)@.current_word_size,
                word_size,
                count as nat,
                source,
            ),
    {
        if count == 0 {
            return Vec::new();
        }
        let version = self.version();

        let mut program = self.set_word_size(word_size);
        program.push(modify(Register::Cr1, Patch { spe: Some(false), ..Patch::empty() }));

        // The third generation clears its receive side when it is disabled.
        if !version.is_gen3() {
            program.push(Instr::Drain { from: rx_register(version) });
        }
        program.push(set_rxdmaen(version, true));

        program.push(Instr::Do(Op::StartRxDma { from: rx_register(version), count }));
        program.push(Instr::Do(Op::StartTxDma { to: tx_register(version), source, count }));

        Spi::run_dma(version, &mut program);
        program
    }

    /// SPI write, using DMA.
    pub fn write<W: Word>(&mut self, data: &[W]) -> (program: Vec<Instr>)
        requires
            W::spec_size().spec_supported(old(self)@.version),
            data@.len() > 0 ==> old(self)@.tx_dma,
        ensures
            data@.len() == 0 ==> program@.len() == 0 && final(self)@ == old(self)@,
            final(self)@ == after_dma(old(self)@, W::spec_size(), data@.len()),
            program@ == write_program(
                old(self)@.version,
                old(self)@.current_word_size,
                W::spec_size(),
                data@.len(),
            ),
    {
        if data.len() == 0 {
            return Vec::new();
        }
        let version = self.version();

        let mut program = self.set_word_size(W::size());
        program.push(modify(Register::Cr1, Patch { spe: Some(false), ..Patch::empty() }));

        program.push(
            Instr::Do(
                Op::StartTxDma {
                    to: tx_register(version),
                    source: TxSource::Buffer,
                    count: data.len(),
                },
            ),
        );

        Spi::run_dma(version, &mut program);
        program
    }

    /// SPI read, using DMA.
    ///
    /// The bus is clocked by sending the byte `0x00` once for every word
    /// that is read.
    pub fn read<W: Word>(&mut self, data: &[W]) -> (program: Vec<Instr>)
        requires
            W::spec_size().spec_supported(old(self)@.version),
            data@.len() > 0 ==> old(self)@.tx_dma && old(self)@.rx_dma,
        ensures
            data@.len() == 0 ==> program@.len() == 0 && final(self)@ == old(self)@,
            final(self)@ == after_dma(old(self)@, W::spec_size(), data@.len()),
            program@ == transfer_program(
                old(self)@.version,
                old(self)@.current_word_size,
                W::spec_size(),
                data@.len(),
                TxSource::Repeated(0x00),
            ),
    {
        let clock_byte = 0x00u8;
        self.duplex(W::size(), data.len(), TxSource::Repeated(clock_byte))
    }

    /// Builds the program of a DMA transfer between two buffers of the same
    /// length, which may be one and the same buffer.
    fn transfer_inner<W: Word>(&mut self, rx_len: usize, tx_len: usize) -> (program: Vec<Instr>)
        requires
            rx_len == tx_len,
            W::spec_size().spec_supported(old(self)@.version),
            rx_len > 0 ==> old(self)@.tx_dma && old(self)@.rx_dma,
        ensures
            final(self)@ == after_dma(old(self)@, W::spec_size(), rx_len as nat),
            program@ == transfer_program(
                old(self)@.version,
                old(self)@.current_word_size,
                W::spec_size(),
                rx_len as nat,
                TxSource::Buffer,
            ),
    {
        self.duplex(W::size(), rx_len, TxSource::Buffer)
    }

    /// Bidirectional transfer, using DMA.
    ///
    /// This transfers both buffers at the same time, so it is NOT equivalent to `write`
    /// followed by `read`.
    ///
    /// The two buffers must be of the same length.
    pub fn transfer<W: Word>(&mut self, read: &[W], write: &[W]) -> (program: Vec<Instr>)
        requires
            transfer_admitted(old(self)@, W::spec_size(), read@.len(), write@.len()),
        ensures
            read@.len() == 0 ==> program@.len() == 0 && final(self)@ == old(self)@,
            final(self)@ == after_dma(old(self)@, W::spec_size(), read@.len()),
            program@ == transfer_program(
                old(self)@.version,
                old(self)@.current_word_size,
                W::spec_size(),
                read@.len(),
                TxSource::Buffer,
            ),
    {
        self.transfer_inner::<W>(read.len(), write.len())
    }

    /// In-place bidirectional transfer, using DMA.
    ///
    /// This writes the contents of `data` on MOSI, and puts the received data on MISO in
    /// `data`, at the same time.
    pub fn transfer_in_place<W: Word>(&mut self, data: &[W]) -> (program: Vec<Instr>)
        requires
            W::spec_size().spec_supported(old(self)@.version),
            data@.len() > 0 ==> old(self)@.tx_dma && old(self)@.rx_dma,
        ensures
            data@.len() == 0 ==> program@.len() == 0 && final(self)@ == old(self)@,
            final(self)@ == after_dma(old(self)@, W::spec_size(), data@.len()),
            program@ == transfer_program(
                old(self)@.version,
                old(self)@.current_word_size,
                W::spec_size(),
                data@.len(),
                TxSource::Buffer,
            ),
    {
        self.transfer_inner::<W>(data.len(), data.len())
    }
}

} // verus!
