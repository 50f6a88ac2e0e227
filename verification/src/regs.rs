//! A model of the peripheral's registers at the level of their fields.
//!
//! The three generations lay the same handful of settings out over different
//! registers.  [`Registers`] holds every field the driver ever programs,
//! [`Patch`] describes one read-modify-write access, and [`Field::home`]
//! says which register of which generation holds a field.

use vstd::prelude::*;
use crate::version::{Family, Version};

verus! {

/// Clock phase field.
#[derive(Clone, Copy, Debug, PartialEq, Eq, Structural)]
pub enum Cpha {
    /// Data is captured on the first clock transition.
    FirstEdge,
    /// Data is captured on the second clock transition.
    SecondEdge,
}

/// Clock polarity field.
#[derive(Clone, Copy, Debug, PartialEq, Eq, Structural)]
pub enum Cpol {
    /// The clock idles low.
    IdleLow,
    /// The clock idles high.
    IdleHigh,
}

/// Frame format field.
#[derive(Clone, Copy, Debug, PartialEq, Eq, Structural)]
pub enum Lsbfirst {
    /// The most significant bit is shifted out first.
    MsbFirst,
    /// The least significant bit is shifted out first.
    LsbFirst,
}

/// Baud rate prescaler field.
#[derive(Clone, Copy, Debug, PartialEq, Eq, Structural)]
pub enum Br {
    /// Input clock divided by 2.
    Div2,
    /// Input clock divided by 4.
    Div4,
    /// Input clock divided by 8.
    Div8,
    /// Input clock divided by 16.
    Div16,
    /// Input clock divided by 32.
    Div32,
    /// Input clock divided by 64.
    Div64,
    /// Input clock divided by 128.
    Div128,
    /// Input clock divided by 256.
    Div256,
}

/// Data frame format field of the first generation.
#[derive(Clone, Copy, Debug, PartialEq, Eq, Structural)]
pub enum Dff {
    /// 8 bit frames.
    Bits8,
    /// 16 bit frames.
    Bits16,
}

/// Receive FIFO threshold field of the second generation.
#[derive(Clone, Copy, Debug, PartialEq, Eq, Structural)]
pub enum Frxth {
    /// Data is ready when the FIFO is half full (16 bit).
    Half,
    /// Data is ready when the FIFO is a quarter full (8 bit).
    Quarter,
}

/// Bidirectional data mode field.
#[derive(Clone, Copy, Debug, PartialEq, Eq, Structural)]
pub enum Bidimode {
    /// Two unidirectional data lines.
    Unidirectional,
    /// One bidirectional data line.
    Bidirectional,
}

/// Receive-only field.
#[derive(Clone, Copy, Debug, PartialEq, Eq, Structural)]
pub enum Rxonly {
    /// Transmit and receive.
    FullDuplex,
    /// Output disabled, receive only.
    OutputDisabled,
}

/// Communication mode field of the third generation.
#[derive(Clone, Copy, Debug, PartialEq, Eq, Structural)]
pub enum Comm {
    /// Full duplex.
    FullDuplex,
    /// Simplex transmitter.
    Transmitter,
    /// Simplex receiver.
    Receiver,
    /// Half duplex.
    HalfDuplex,
}

/// Slave-select output management field of the third generation.
#[derive(Clone, Copy, Debug, PartialEq, Eq, Structural)]
pub enum Ssom {
    /// Slave select is kept active until the transfer is complete.
    Asserted,
    /// Slave select is released between frames.
    NotAsserted,
}

/// Slave-select polarity field of the third generation.
#[derive(Clone, Copy, Debug, PartialEq, Eq, Structural)]
pub enum Ssiop {
    /// Slave select is active low.
    ActiveLow,
    /// Slave select is active high.
    ActiveHigh,
}

/// A control register of the peripheral.
#[derive(Clone, Copy, Debug, PartialEq, Eq, Structural)]
pub enum Register {
    /// Control register 1.
    Cr1,
    /// Control register 2.
    Cr2,
    /// Configuration register 1 (third generation).
    Cfg1,
    /// Configuration register 2 (third generation).
    Cfg2,
}

/// A data register of the peripheral.
#[derive(Clone, Copy, Debug, PartialEq, Eq, Structural)]
pub enum DataRegister {
    /// The data register of the first generation.
    Dr,
    /// The data register of the second generation.
    Dr16,
    /// The transmit data register of the third generation.
    Txdr32,
    /// The receive data register of the third generation.
    Rxdr32,
}

/// The name of a control field.
#[derive(Clone, Copy, Debug, PartialEq, Eq, Structural)]
pub enum Field {
    /// Peripheral enable.
    Spe,
    /// Clock phase.
    Cpha,
    /// Clock polarity.
    Cpol,
    /// Frame format.
    Lsbfirst,
    /// Baud rate prescaler.
    Br,
    /// Master selection.
    Master,
    /// Internal slave select.
    Ssi,
    /// Software slave management.
    Ssm,
    /// Slave select output enable.
    Ssoe,
    /// Hardware CRC calculation enable.
    Crcen,
    /// Bidirectional data mode.
    Bidimode,
    /// Receive only.
    Rxonly,
    /// Data frame format (first generation).
    Dff,
    /// Data size (second generation).
    Ds,
    /// Receive FIFO threshold (second generation).
    Frxth,
    /// Data size (third generation).
    Dsize,
    /// FIFO threshold level (third generation).
    Fthlv,
    /// Transmit DMA request enable.
    Txdmaen,
    /// Receive DMA request enable.
    Rxdmaen,
    /// Master suspend request (third generation).
    Csusp,
    /// Master transfer start (third generation).
    Cstart,
    /// Number of frames of a transfer (third generation).
    Tsize,
    /// Communication mode (third generation).
    Comm,
    /// Slave select output management (third generation).
    Ssom,
    /// Minimum delay between frames (third generation).
    Midi,
    /// Delay between slave select and the first frame (third generation).
    Mssi,
    /// Alternate function control (third generation).
    Afcntr,
    /// Slave select polarity (third generation).
    Ssiop,
}

impl Field {
    /// The register that holds this field on a peripheral of the given
    /// revision, or `None` where that revision has no such field.
    pub open spec fn home(self, version: Version) -> Option<Register> {
        match version.spec_family() {
            Family::Gen1 => match self {
                Field::Spe | Field::Cpha | Field::Cpol | Field::Lsbfirst | Field::Br
                | Field::Master | Field::Ssi | Field::Ssm | Field::Crcen | Field::Bidimode
                | Field::Rxonly | Field::Dff => Some(Register::Cr1),
                Field::Ssoe | Field::Txdmaen | Field::Rxdmaen => Some(Register::Cr2),
                _ => None,
            },
            Family::Gen2 => match self {
                Field::Spe | Field::Cpha | Field::Cpol | Field::Lsbfirst | Field::Br
                | Field::Master | Field::Ssi | Field::Ssm | Field::Crcen | Field::Bidimode
                | Field::Rxonly => Some(Register::Cr1),
                Field::Ssoe | Field::Txdmaen | Field::Rxdmaen | Field::Ds | Field::Frxth => Some(
                    Register::Cr2,
                ),
                _ => None,
            },
            Family::Gen3 => match self {
                Field::Spe | Field::Ssi | Field::Csusp | Field::Cstart => Some(Register::Cr1),
                Field::Tsize => Some(Register::Cr2),
                Field::Br | Field::Crcen | Field::Dsize | Field::Fthlv | Field::Txdmaen
                | Field::Rxdmaen => Some(Register::Cfg1),
                Field::Cpha | Field::Cpol | Field::Lsbfirst | Field::Master | Field::Ssm
                | Field::Ssoe | Field::Comm | Field::Ssom | Field::Midi | Field::Mssi
                | Field::Afcntr | Field::Ssiop => Some(Register::Cfg2),
                _ => None,
            },
        }
    }
}

/// The values of all control fields that the driver programs.
///
/// On a given revision only the fields with a [`Field::home`] exist; the
/// others are carried along and never read.
#[derive(Clone, Copy, Debug, PartialEq, Eq)]
pub struct Registers {
    /// Peripheral enable.
    pub spe: bool,
    /// Clock phase.
    pub cpha: Cpha,
    /// Clock polarity.
    pub cpol: Cpol,
    /// Frame format.
    pub lsbfirst: Lsbfirst,
    /// Baud rate prescaler.
    pub br: Br,
    /// Master selection: `true` selects master mode.
    pub master: bool,
    /// Internal slave select.
    pub ssi: bool,
    /// Software slave management.
    pub ssm: bool,
    /// Slave select output enable.
    pub ssoe: bool,
    /// Hardware CRC calculation enable.
    pub crcen: bool,
    /// Bidirectional data mode.
    pub bidimode: Bidimode,
    /// Receive only.
    pub rxonly: Rxonly,
    /// Data frame format.
    pub dff: Dff,
    /// Data size: the number of bits of a frame, minus one.
    pub ds: u8,
    /// Receive FIFO threshold.
    pub frxth: Frxth,
    /// Data size: the number of bits of a frame, minus one.
    pub dsize: u8,
    /// FIFO threshold level: the number of frames, minus one.
    pub fthlv: u8,
    /// Transmit DMA request enable.
    pub txdmaen: bool,
    /// Receive DMA request enable.
    pub rxdmaen: bool,
    /// Master suspend request.
    pub csusp: bool,
    /// Master transfer start.
    pub cstart: bool,
    /// Number of frames of a transfer; zero for an endless transfer.
    pub tsize: u16,
    /// Communication mode.
    pub comm: Comm,
    /// Slave select output management.
    pub ssom: Ssom,
    /// Minimum delay between frames, in clock periods.
    pub midi: u8,
    /// Delay between slave select and the first frame, in clock periods.
    pub mssi: u8,
    /// Alternate function control: `true` keeps the pins under the
    /// peripheral's control while it is disabled.
    pub afcntr: bool,
    /// Slave select polarity.
    pub ssiop: Ssiop,
}

/// One read-modify-write access: the fields to write, each with its new
/// value.  Fields left `None` keep the value they have.
#[derive(Clone, Copy, Debug, PartialEq, Eq)]
pub struct Patch {
    /// Peripheral enable.
    pub spe: Option<bool>,
    /// Clock phase.
    pub cpha: Option<Cpha>,
    /// Clock polarity.
    pub cpol: Option<Cpol>,
    /// Frame format.
    pub lsbfirst: Option<Lsbfirst>,
    /// Baud rate prescaler.
    pub br: Option<Br>,
    /// Master selection.
    pub master: Option<bool>,
    /// Internal slave select.
    pub ssi: Option<bool>,
    /// Software slave management.
    pub ssm: Option<bool>,
    /// Slave select output enable.
    pub ssoe: Option<bool>,
    /// Hardware CRC calculation enable.
    pub crcen: Option<bool>,
    /// Bidirectional data mode.
    pub bidimode: Option<Bidimode>,
    /// Receive only.
    pub rxonly: Option<Rxonly>,
    /// Data frame format.
    pub dff: Option<Dff>,
    /// Data size.
    pub ds: Option<u8>,
    /// Receive FIFO threshold.
    pub frxth: Option<Frxth>,
    /// Data size.
    pub dsize: Option<u8>,
    /// FIFO threshold level.
    pub fthlv: Option<u8>,
    /// Transmit DMA request enable.
    pub txdmaen: Option<bool>,
    /// Receive DMA request enable.
    pub rxdmaen: Option<bool>,
    /// Master suspend request.
    pub csusp: Option<bool>,
    /// Master transfer start.
    pub cstart: Option<bool>,
    /// Number of frames of a transfer.
    pub tsize: Option<u16>,
    /// Communication mode.
    pub comm: Option<Comm>,
    /// Slave select output management.
    pub ssom: Option<Ssom>,
    /// Minimum delay between frames.
    pub midi: Option<u8>,
    /// Delay between slave select and the first frame.
    pub mssi: Option<u8>,
    /// Alternate function control.
    pub afcntr: Option<bool>,
    /// Slave select polarity.
    pub ssiop: Option<Ssiop>,
}

impl Patch {
    /// The access that writes no field.
    pub open spec fn spec_empty() -> Patch {
        Patch {
            spe: None,
            cpha: None,
            cpol: None,
            lsbfirst: None,
            br: None,
            master: None,
            ssi: None,
            ssm: None,
            ssoe: None,
            crcen: None,
            bidimode: None,
            rxonly: None,
            dff: None,
            ds: None,
            frxth: None,
            dsize: None,
            fthlv: None,
            txdmaen: None,
            rxdmaen: None,
            csusp: None,
            cstart: None,
            tsize: None,
            comm: None,
            ssom: None,
            midi: None,
            mssi: None,
            afcntr: None,
            ssiop: None,
        }
    }

    /// The access that writes no field.
    #[verifier::when_used_as_spec(spec_empty)]
    pub fn empty() -> (patch: Patch)
        ensures
            patch == Patch::spec_empty(),
    {
        Patch {
            spe: None,
            cpha: None,
            cpol: None,
            lsbfirst: None,
            br: None,
            master: None,
            ssi: None,
            ssm: None,
            ssoe: None,
            crcen: None,
            bidimode: None,
            rxonly: None,
            dff: None,
            ds: None,
            frxth: None,
            dsize: None,
            fthlv: None,
            txdmaen: None,
            rxdmaen: None,
            csusp: None,
            cstart: None,
            tsize: None,
            comm: None,
            ssom: None,
            midi: None,
            mssi: None,
            afcntr: None,
            ssiop: None,
        }
    }

    /// Whether this access writes the given field.
    pub open spec fn writes(self, field: Field) -> bool {
        match field {
            Field::Spe => self.spe is Some,
            Field::Cpha => self.cpha is Some,
            Field::Cpol => self.cpol is Some,
            Field::Lsbfirst => self.lsbfirst is Some,
            Field::Br => self.br is Some,
            Field::Master => self.master is Some,
            Field::Ssi => self.ssi is Some,
            Field::Ssm => self.ssm is Some,
            Field::Ssoe => self.ssoe is Some,
            Field::Crcen => self.crcen is Some,
            Field::Bidimode => self.bidimode is Some,
            Field::Rxonly => self.rxonly is Some,
            Field::Dff => self.dff is Some,
            Field::Ds => self.ds is Some,
            Field::Frxth => self.frxth is Some,
            Field::Dsize => self.dsize is Some,
            Field::Fthlv => self.fthlv is Some,
            Field::Txdmaen => self.txdmaen is Some,
            Field::Rxdmaen => self.rxdmaen is Some,
            Field::Csusp => self.csusp is Some,
            Field::Cstart => self.cstart is Some,
            Field::Tsize => self.tsize is Some,
            Field::Comm => self.comm is Some,
            Field::Ssom => self.ssom is Some,
            Field::Midi => self.midi is Some,
            Field::Mssi => self.mssi is Some,
            Field::Afcntr => self.afcntr is Some,
            Field::Ssiop => self.ssiop is Some,
        }
    }

    /// Whether this access can be made in one go on a peripheral of the
    /// given revision: every field it writes lives in `register` there.
    pub open spec fn fits(self, version: Version, register: Register) -> bool {
        forall|field: Field| #[trigger] self.writes(field) ==> field.home(version) == Some(register)
    }
}

impl Registers {
    /// The registers with every flag off, every number zero and every
    /// selection at its first value.
    pub open spec fn spec_cleared() -> Registers {
        Registers {
            spe: false,
            cpha: Cpha::FirstEdge,
            cpol: Cpol::IdleLow,
            lsbfirst: Lsbfirst::MsbFirst,
            br: Br::Div2,
            master: false,
            ssi: false,
            ssm: false,
            ssoe: false,
            crcen: false,
            bidimode: Bidimode::Unidirectional,
            rxonly: Rxonly::FullDuplex,
            dff: Dff::Bits8,
            ds: 0,
            frxth: Frxth::Half,
            dsize: 0,
            fthlv: 0,
            txdmaen: false,
            rxdmaen: false,
            csusp: false,
            cstart: false,
            tsize: 0,
            comm: Comm::FullDuplex,
            ssom: Ssom::Asserted,
            midi: 0,
            mssi: 0,
            afcntr: false,
            ssiop: Ssiop::ActiveLow,
        }
    }

    /// The registers with every flag off, every number zero and every
    /// selection at its first value.
    #[verifier::when_used_as_spec(spec_cleared)]
    pub fn cleared() -> (regs: Registers)
        ensures
            regs == Registers::spec_cleared(),
    {
        Registers {
            spe: false,
            cpha: Cpha::FirstEdge,
            cpol: Cpol::IdleLow,
            lsbfirst: Lsbfirst::MsbFirst,
            br: Br::Div2,
            master: false,
            ssi: false,
            ssm: false,
            ssoe: false,
            crcen: false,
            bidimode: Bidimode::Unidirectional,
            rxonly: Rxonly::FullDuplex,
            dff: Dff::Bits8,
            ds: 0,
            frxth: Frxth::Half,
            dsize: 0,
            fthlv: 0,
            txdmaen: false,
            rxdmaen: false,
            csusp: false,
            cstart: false,
            tsize: 0,
            comm: Comm::FullDuplex,
            ssom: Ssom::Asserted,
            midi: 0,
            mssi: 0,
            afcntr: false,
            ssiop: Ssiop::ActiveLow,
        }
    }

    /// The registers after the access `patch`: the fields that the access
    /// writes hold their new value, the others are as before.
    #[verifier::opaque]
    pub open spec fn patched(self, patch: Patch) -> Registers {
        Registers {
            spe: patch.spe.unwrap_or(self.spe),
            cpha: patch.cpha.unwrap_or(self.cpha),
            cpol: patch.cpol.unwrap_or(self.cpol),
            lsbfirst: patch.lsbfirst.unwrap_or(self.lsbfirst),
            br: patch.br.unwrap_or(self.br),
            master: patch.master.unwrap_or(self.master),
            ssi: patch.ssi.unwrap_or(self.ssi),
            ssm: patch.ssm.unwrap_or(self.ssm),
            ssoe: patch.ssoe.unwrap_or(self.ssoe),
            crcen: patch.crcen.unwrap_or(self.crcen),
            bidimode: patch.bidimode.unwrap_or(self.bidimode),
            rxonly: patch.rxonly.unwrap_or(self.rxonly),
            dff: patch.dff.unwrap_or(self.dff),
            ds: patch.ds.unwrap_or(self.ds),
            frxth: patch.frxth.unwrap_or(self.frxth),
            dsize: patch.dsize.unwrap_or(self.dsize),
            fthlv: patch.fthlv.unwrap_or(self.fthlv),
            txdmaen: patch.txdmaen.unwrap_or(self.txdmaen),
            rxdmaen: patch.rxdmaen.unwrap_or(self.rxdmaen),
            csusp: patch.csusp.unwrap_or(self.csusp),
            cstart: patch.cstart.unwrap_or(self.cstart),
            tsize: patch.tsize.unwrap_or(self.tsize),
            comm: patch.comm.unwrap_or(self.comm),
            ssom: patch.ssom.unwrap_or(self.ssom),
            midi: patch.midi.unwrap_or(self.midi),
            mssi: patch.mssi.unwrap_or(self.mssi),
            afcntr: patch.afcntr.unwrap_or(self.afcntr),
            ssiop: patch.ssiop.unwrap_or(self.ssiop),
        }
    }

    /// Performs the access `patch` on these registers.
    pub fn apply(&mut self, patch: Patch)
        ensures
            *final(self) == old(self).patched(patch),
    {
        reveal(Registers::patched);
        *self = Registers {
            spe: match patch.spe { Some(v) => v, None => self.spe },
            cpha: match patch.cpha { Some(v) => v, None => self.cpha },
            cpol: match patch.cpol { Some(v) => v, None => self.cpol },
            lsbfirst: match patch.lsbfirst { Some(v) => v, None => self.lsbfirst },
            br: match patch.br { Some(v) => v, None => self.br },
            master: match patch.master { Some(v) => v, None => self.master },
            ssi: match patch.ssi { Some(v) => v, None => self.ssi },
            ssm: match patch.ssm { Some(v) => v, None => self.ssm },
            ssoe: match patch.ssoe { Some(v) => v, None => self.ssoe },
            crcen: match patch.crcen { Some(v) => v, None => self.crcen },
            bidimode: match patch.bidimode { Some(v) => v, None => self.bidimode },
            rxonly: match patch.rxonly { Some(v) => v, None => self.rxonly },
            dff: match patch.dff { Some(v) => v, None => self.dff },
            ds: match patch.ds { Some(v) => v, None => self.ds },
            frxth: match patch.frxth { Some(v) => v, None => self.frxth },
            dsize: match patch.dsize { Some(v) => v, None => self.dsize },
            fthlv: match patch.fthlv { Some(v) => v, None => self.fthlv },
            txdmaen: match patch.txdmaen { Some(v) => v, None => self.txdmaen },
            rxdmaen: match patch.rxdmaen { Some(v) => v, None => self.rxdmaen },
            csusp: match patch.csusp { Some(v) => v, None => self.csusp },
            cstart: match patch.cstart { Some(v) => v, None => self.cstart },
            tsize: match patch.tsize { Some(v) => v, None => self.tsize },
            comm: match patch.comm { Some(v) => v, None => self.comm },
            ssom: match patch.ssom { Some(v) => v, None => self.ssom },
            midi: match patch.midi { Some(v) => v, None => self.midi },
            mssi: match patch.mssi { Some(v) => v, None => self.mssi },
            afcntr: match patch.afcntr { Some(v) => v, None => self.afcntr },
            ssiop: match patch.ssiop { Some(v) => v, None => self.ssiop },
        };
    }
}

} // verus!
