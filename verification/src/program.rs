//! The vocabulary in which the driver tells its shell what to do.
//!
//! A program is a sequence of [`Instr`]s.  Most of them are plain
//! operations ([`Op`]) that the shell performs as they come.  The others
//! wait for the peripheral and are run by the
//! [`Sequencer`](crate::sequencer::Sequencer), which turns them into status
//! reads and decides on each sample.

use vstd::prelude::*;
use crate::config::Pull;
use crate::regs::{DataRegister, Patch, Register, Registers};
use crate::status::{Condition, Readiness};
use crate::version::{Family, Version};

verus! {

/// The role of a pin of the bus.
#[derive(Clone, Copy, Debug, PartialEq, Eq, Structural)]
pub enum PinRole {
    /// Clock.
    Sck,
    /// Data out of the master.
    Mosi,
    /// Data into the master.
    Miso,
}

/// Alternate function type of a pin.
#[derive(Clone, Copy, Debug, PartialEq, Eq, Structural)]
pub enum AfType {
    /// Input.
    Input,
    /// Output, driven high and low.
    OutputPushPull,
    /// Output, driven low only.
    OutputOpenDrain,
}

/// Drive speed of a pin.
#[derive(Clone, Copy, Debug, PartialEq, Eq, Structural)]
pub enum Speed {
    /// Low speed.
    Low,
    /// Medium speed.
    Medium,
    /// High speed.
    High,
    /// Very high speed.
    VeryHigh,
}

/// A DMA channel of the driver.
#[derive(Clone, Copy, Debug, PartialEq, Eq, Structural)]
pub enum Channel {
    /// The channel that feeds the transmit data register.
    Tx,
    /// The channel that empties the receive data register.
    Rx,
}

/// Where the words of a transmit DMA transfer come from.
#[derive(Clone, Copy, Debug, PartialEq, Eq, Structural)]
pub enum TxSource {
    /// The caller's buffer.
    Buffer,
    /// One byte, sent again and again to clock the bus.
    Repeated(u8),
}

/// One operation on the hardware that needs no decision.
#[derive(Clone, Copy, Debug, PartialEq, Eq)]
pub enum Op {
    /// Switch a pin to its alternate function with the given drive and pull.
    ConfigurePin { role: PinRole, af_type: AfType, speed: Speed, pull: Pull },
    /// Disconnect a pin from the peripheral.
    DisconnectPin(PinRole),
    /// Reset the peripheral and switch its clock on.
    EnableAndReset,
    /// Switch the peripheral's clock off.
    DisableClock,
    /// Clear all flags through the interrupt flag clear register.
    ClearFlags,
    /// One read-modify-write access to a control register.
    Modify(Register, Patch),
    /// Write one word to a data register: element `slot` of the caller's
    /// transmit buffer, or a zero word for `None`.
    Send { to: DataRegister, slot: Option<usize> },
    /// Read one word from a data register into element `slot` of the
    /// caller's receive buffer, or throw it away for `None`.
    Receive { from: DataRegister, slot: Option<usize> },
    /// Start a DMA transfer of `count` words from a data register into the
    /// caller's receive buffer.
    StartRxDma { from: DataRegister, count: usize },
    /// Start a DMA transfer of `count` words from `source` to a data
    /// register.
    StartTxDma { to: DataRegister, source: TxSource, count: usize },
}

/// One step of a program.
#[derive(Clone, Copy, Debug, PartialEq, Eq)]
pub enum Instr {
    /// Perform an operation.
    Do(Op),
    /// Read and throw away words from a data register while the peripheral
    /// holds any.  Not for the third generation, which is never drained.
    Drain { from: DataRegister },
    /// Poll the status register until a condition holds.
    Wait(Condition),
    /// Poll the status register until the peripheral is ready in one
    /// direction; give the whole program up if an error flag shows.
    Poll(Readiness),
    /// Suspend until every DMA transfer that was started has completed.
    Join,
}

/// One read-modify-write access as an instruction.
pub open spec fn spec_modify(register: Register, patch: Patch) -> Instr {
    Instr::Do(Op::Modify(register, patch))
}

/// One read-modify-write access as an instruction.
#[verifier::when_used_as_spec(spec_modify)]
pub fn modify(register: Register, patch: Patch) -> (instr: Instr)
    ensures
        instr == spec_modify(register, patch),
{
    Instr::Do(Op::Modify(register, patch))
}

/// The data register that words to transmit are written to.
pub open spec fn spec_tx_register(version: Version) -> DataRegister {
    match version.spec_family() {
        Family::Gen1 => DataRegister::Dr,
        Family::Gen2 => DataRegister::Dr16,
        Family::Gen3 => DataRegister::Txdr32,
    }
}

/// The data register that words to transmit are written to.
#[verifier::when_used_as_spec(spec_tx_register)]
pub fn tx_register(version: Version) -> (register: DataRegister)
    ensures
        register == spec_tx_register(version),
{
    match version.family() {
        Family::Gen1 => DataRegister::Dr,
        Family::Gen2 => DataRegister::Dr16,
        Family::Gen3 => DataRegister::Txdr32,
    }
}

/// The data register that received words are read from.
pub open spec fn spec_rx_register(version: Version) -> DataRegister {
    match version.spec_family() {
        Family::Gen1 => DataRegister::Dr,
        Family::Gen2 => DataRegister::Dr16,
        Family::Gen3 => DataRegister::Rxdr32,
    }
}

/// The data register that received words are read from.
#[verifier::when_used_as_spec(spec_rx_register)]
pub fn rx_register(version: Version) -> (register: DataRegister)
    ensures
        register == spec_rx_register(version),
{
    match version.family() {
        Family::Gen1 => DataRegister::Dr,
        Family::Gen2 => DataRegister::Dr16,
        Family::Gen3 => DataRegister::Rxdr32,
    }
}

impl Op {
    /// Whether a peripheral of the given revision can perform the
    /// operation: an access stays within one register that holds all its
    /// fields, data moves through the revision's own data registers, and
    /// only the third generation has flags to clear.
    pub open spec fn fits(self, version: Version) -> bool {
        match self {
            Op::Modify(register, patch) => patch.fits(version, register),
            Op::Send { to, .. } => to == spec_tx_register(version),
            Op::Receive { from, .. } => from == spec_rx_register(version),
            Op::StartRxDma { from, .. } => from == spec_rx_register(version),
            Op::StartTxDma { to, .. } => to == spec_tx_register(version),
            Op::ClearFlags => version.spec_is_gen3(),
            _ => true,
        }
    }
}

impl Instr {
    /// Whether a peripheral of the given revision can run the instruction.
    /// A drain is no instruction for the third generation.
    pub open spec fn fits(self, version: Version) -> bool {
        match self {
            Instr::Do(op) => op.fits(version),
            Instr::Drain { from } => !version.spec_is_gen3() && from == spec_rx_register(version),
            Instr::Wait(condition) => condition.available(version),
            Instr::Poll(_) => true,
            Instr::Join => true,
        }
    }
}

impl Instr {
    /// The control fields after the instruction has run on a peripheral
    /// whose control fields were `regs`: an access changes the fields it
    /// writes, everything else leaves them alone.
    pub open spec fn effect(self, regs: Registers) -> Registers {
        match self {
            Instr::Do(Op::Modify(_, patch)) => regs.patched(patch),
            _ => regs,
        }
    }

    /// Whether the instruction writes one of the fields that hold the word
    /// size.
    pub open spec fn writes_word_size(self) -> bool {
        self matches Instr::Do(Op::Modify(_, patch)) && (patch.dff is Some || patch.ds is Some
            || patch.frxth is Some || patch.dsize is Some)
    }
}

/// The control fields after the whole program has run on a peripheral
/// whose control fields were `regs`.
pub open spec fn registers_after(regs: Registers, program: Seq<Instr>) -> Registers
    decreases program.len(),
{
    if program.len() == 0 {
        regs
    } else {
        program.last().effect(registers_after(regs, program.drop_last()))
    }
}

/// Whether a peripheral of the given revision can run every instruction of
/// the program.
pub open spec fn program_fits(version: Version, program: Seq<Instr>) -> bool {
    forall|i: int| 0 <= i < program.len() ==> (#[trigger] program[i]).fits(version)
}

} // verus!
