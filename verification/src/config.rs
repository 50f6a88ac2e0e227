//! Bus configuration and its mapping to and from register fields.

use vstd::prelude::*;
use crate::regs::{Br, Cpha, Cpol, Lsbfirst};

verus! {

/// Clock polarity.
#[derive(Clone, Copy, Debug, PartialEq, Eq, Structural)]
pub enum Polarity {
    /// Clock signal low when idle.
    IdleLow,
    /// Clock signal high when idle.
    IdleHigh,
}

/// Clock phase.
#[derive(Clone, Copy, Debug, PartialEq, Eq, Structural)]
pub enum Phase {
    /// Data in "captured" on the first clock transition.
    CaptureOnFirstTransition,
    /// Data in "captured" on the second clock transition.
    CaptureOnSecondTransition,
}

/// SPI mode.
#[derive(Clone, Copy, Debug, PartialEq, Eq, Structural)]
pub struct Mode {
    /// Clock polarity.
    pub polarity: Polarity,
    /// Clock phase.
    pub phase: Phase,
}

/// SPI bit order.
#[derive(Clone, Copy, Debug, PartialEq, Eq, Structural)]
pub enum BitOrder {
    /// Least significant bit first.
    LsbFirst,
    /// Most significant bit first.
    MsbFirst,
}

/// A frequency in hertz.
#[derive(Clone, Copy, Debug, PartialEq, Eq, Structural)]
pub struct Hertz(pub u32);

/// Pull setting of a pin.
#[derive(Clone, Copy, Debug, PartialEq, Eq, Structural)]
pub enum Pull {
    /// No pull.
    NoPull,
    /// Pull up.
    Up,
    /// Pull down.
    Down,
}

/// SPI configuration.
#[derive(Clone, Copy, Debug, PartialEq, Eq, Structural)]
pub struct Config {
    /// SPI mode.
    pub mode: Mode,
    /// Bit order.
    pub bit_order: BitOrder,
    /// Clock frequency.
    pub frequency: Hertz,
}

impl Mode {
    /// Mode 0: the clock idles low, data is captured on the first transition.
    pub open spec fn spec_mode_0() -> Mode {
        Mode { polarity: Polarity::IdleLow, phase: Phase::CaptureOnFirstTransition }
    }

    /// Mode 0: the clock idles low, data is captured on the first transition.
    #[verifier::when_used_as_spec(spec_mode_0)]
    pub fn mode_0() -> (mode: Mode)
        ensures
            mode == Mode::spec_mode_0(),
    {
        Mode { polarity: Polarity::IdleLow, phase: Phase::CaptureOnFirstTransition }
    }

    /// Mode 1: the clock idles low, data is captured on the second transition.
    pub fn mode_1() -> (mode: Mode)
        ensures
            mode == (Mode { polarity: Polarity::IdleLow, phase: Phase::CaptureOnSecondTransition }),
    {
        Mode { polarity: Polarity::IdleLow, phase: Phase::CaptureOnSecondTransition }
    }

    /// Mode 2: the clock idles high, data is captured on the first transition.
    pub fn mode_2() -> (mode: Mode)
        ensures
            mode == (Mode { polarity: Polarity::IdleHigh, phase: Phase::CaptureOnFirstTransition }),
    {
        Mode { polarity: Polarity::IdleHigh, phase: Phase::CaptureOnFirstTransition }
    }

    /// Mode 3: the clock idles high, data is captured on the second transition.
    pub fn mode_3() -> (mode: Mode)
        ensures
            mode == (Mode { polarity: Polarity::IdleHigh, phase: Phase::CaptureOnSecondTransition }),
    {
        Mode { polarity: Polarity::IdleHigh, phase: Phase::CaptureOnSecondTransition }
    }
}

impl Config {
    /// The configuration a driver starts from when none is given: mode 0,
    /// most significant bit first, 1 MHz.
    pub open spec fn spec_default() -> Config {
        Config {
            mode: Mode::spec_mode_0(),
            bit_order: BitOrder::MsbFirst,
            frequency: Hertz(1_000_000),
        }
    }

    /// The clock phase field for this configuration.
    pub open spec fn spec_raw_phase(&self) -> Cpha {
        match self.mode.phase {
            Phase::CaptureOnSecondTransition => Cpha::SecondEdge,
            Phase::CaptureOnFirstTransition => Cpha::FirstEdge,
        }
    }

    /// The clock phase field for this configuration.
    #[verifier::when_used_as_spec(spec_raw_phase)]
    pub fn raw_phase(&self) -> (cpha: Cpha)
        ensures
            cpha == self.spec_raw_phase(),
    {
        match self.mode.phase {
            Phase::CaptureOnSecondTransition => Cpha::SecondEdge,
            Phase::CaptureOnFirstTransition => Cpha::FirstEdge,
        }
    }

    /// The clock polarity field for this configuration.
    pub open spec fn spec_raw_polarity(&self) -> Cpol {
        match self.mode.polarity {
            Polarity::IdleHigh => Cpol::IdleHigh,
            Polarity::IdleLow => Cpol::IdleLow,
        }
    }

    /// The clock polarity field for this configuration.
    #[verifier::when_used_as_spec(spec_raw_polarity)]
    pub fn raw_polarity(&self) -> (cpol: Cpol)
        ensures
            cpol == self.spec_raw_polarity(),
    {
        match self.mode.polarity {
            Polarity::IdleHigh => Cpol::IdleHigh,
            Polarity::IdleLow => Cpol::IdleLow,
        }
    }

    /// The frame format field for this configuration.
    pub open spec fn spec_raw_byte_order(&self) -> Lsbfirst {
        match self.bit_order {
            BitOrder::LsbFirst => Lsbfirst::LsbFirst,
            BitOrder::MsbFirst => Lsbfirst::MsbFirst,
        }
    }

    /// The frame format field for this configuration.
    #[verifier::when_used_as_spec(spec_raw_byte_order)]
    pub fn raw_byte_order(&self) -> (lsbfirst: Lsbfirst)
        ensures
            lsbfirst == self.spec_raw_byte_order(),
    {
        match self.bit_order {
            BitOrder::LsbFirst => Lsbfirst::LsbFirst,
            BitOrder::MsbFirst => Lsbfirst::MsbFirst,
        }
    }

    /// The pull that holds the clock pin at its idle level.
    pub open spec fn spec_sck_pull_mode(&self) -> Pull {
        match self.mode.polarity {
            Polarity::IdleLow => Pull::Down,
            Polarity::IdleHigh => Pull::Up,
        }
    }

    /// The pull that holds the clock pin at its idle level.
    #[verifier::when_used_as_spec(spec_sck_pull_mode)]
    pub fn sck_pull_mode(&self) -> (pull: Pull)
        ensures
            pull == self.spec_sck_pull_mode(),
    {
        match self.mode.polarity {
            Polarity::IdleLow => Pull::Down,
            Polarity::IdleHigh => Pull::Up,
        }
    }
}

impl Default for Config {
    fn default() -> (config: Config)
        ensures
            config == Config::spec_default(),
    {
        Config { mode: Mode::mode_0(), bit_order: BitOrder::MsbFirst, frequency: Hertz(1_000_000) }
    }
}

impl Br {
    /// The prescaler with the given field value.
    pub open spec fn spec_from_bits(bits: u8) -> Br {
        if bits == 0 {
            Br::Div2
        } else if bits == 1 {
            Br::Div4
        } else if bits == 2 {
            Br::Div8
        } else if bits == 3 {
            Br::Div16
        } else if bits == 4 {
            Br::Div32
        } else if bits == 5 {
            Br::Div64
        } else if bits == 6 {
            Br::Div128
        } else {
            Br::Div256
        }
    }

    /// The prescaler with the given field value.
    #[verifier::when_used_as_spec(spec_from_bits)]
    pub fn from_bits(bits: u8) -> (br: Br)
        requires
            bits < 8,
        ensures
            br == Br::spec_from_bits(bits),
            br.spec_to_bits() == bits,
    {
        match bits {
            0 => Br::Div2,
            1 => Br::Div4,
            2 => Br::Div8,
            3 => Br::Div16,
            4 => Br::Div32,
            5 => Br::Div64,
            6 => Br::Div128,
            _ => Br::Div256,
        }
    }

    /// The field value of this prescaler.
    pub open spec fn spec_to_bits(self) -> u8 {
        match self {
            Br::Div2 => 0,
            Br::Div4 => 1,
            Br::Div8 => 2,
            Br::Div16 => 3,
            Br::Div32 => 4,
            Br::Div64 => 5,
            Br::Div128 => 6,
            Br::Div256 => 7,
        }
    }

    /// The field value of this prescaler.
    #[verifier::when_used_as_spec(spec_to_bits)]
    pub fn to_bits(self) -> (bits: u8)
        ensures
            bits == self.spec_to_bits(),
            bits < 8,
    {
        match self {
            Br::Div2 => 0,
            Br::Div4 => 1,
            Br::Div8 => 2,
            Br::Div16 => 3,
            Br::Div32 => 4,
            Br::Div64 => 5,
            Br::Div128 => 6,
            Br::Div256 => 7,
        }
    }

    /// The number by which this prescaler divides the input clock.
    pub open spec fn spec_divisor(self) -> u16 {
        match self {
            Br::Div2 => 2,
            Br::Div4 => 4,
            Br::Div8 => 8,
            Br::Div16 => 16,
            Br::Div32 => 32,
            Br::Div64 => 64,
            Br::Div128 => 128,
            Br::Div256 => 256,
        }
    }

    /// The number by which this prescaler divides the input clock.
    #[verifier::when_used_as_spec(spec_divisor)]
    pub fn divisor(self) -> (div: u16)
        ensures
            div == self.spec_divisor(),
    {
        match self {
            Br::Div2 => 2,
            Br::Div4 => 4,
            Br::Div8 => 8,
            Br::Div16 => 16,
            Br::Div32 => 32,
            Br::Div64 => 64,
            Br::Div128 => 128,
            Br::Div256 => 256,
        }
    }
}

/// The prescaler chosen for a ratio of input clock to requested frequency.
///
/// The ratio is the integer quotient of the two; the table is one-sided and
/// ends at the slowest prescaler.
pub open spec fn prescaler_for_ratio(ratio: int) -> Br {
    if ratio <= 2 {
        Br::Div2
    } else if ratio <= 5 {
        Br::Div4
    } else if ratio <= 11 {
        Br::Div8
    } else if ratio <= 23 {
        Br::Div16
    } else if ratio <= 39 {
        Br::Div32
    } else if ratio <= 95 {
        Br::Div64
    } else if ratio <= 191 {
        Br::Div128
    } else {
        Br::Div256
    }
}

/// Whether a peripheral fed with `kernel_clock` can be asked for `freq`: the
/// request is not zero and does not exceed the input clock.
pub open spec fn spec_frequency_reachable(kernel_clock: Hertz, freq: Hertz) -> bool {
    0 < freq.0 <= kernel_clock.0
}

/// Whether a peripheral fed with `kernel_clock` can be asked for `freq`.
///
/// A request that is not reachable is a mistake in the caller's
/// configuration; no driver can be built or reconfigured with it.
#[verifier::when_used_as_spec(spec_frequency_reachable)]
pub fn frequency_reachable(kernel_clock: Hertz, freq: Hertz) -> (reachable: bool)
    ensures
        reachable == spec_frequency_reachable(kernel_clock, freq),
{
    0 < freq.0 && freq.0 <= kernel_clock.0
}

/// The prescaler that brings `kernel_clock` closest to `freq` by the
/// driver's table.
pub open spec fn spec_compute_baud_rate(kernel_clock: Hertz, freq: Hertz) -> Br {
    prescaler_for_ratio(kernel_clock.0 as int / freq.0 as int)
}

/// Selects the prescaler for a requested frequency.
#[verifier::when_used_as_spec(spec_compute_baud_rate)]
pub fn compute_baud_rate(kernel_clock: Hertz, freq: Hertz) -> (br: Br)
    requires
        spec_frequency_reachable(kernel_clock, freq),
    ensures
        br == spec_compute_baud_rate(kernel_clock, freq),
{
    let ratio: u32 = kernel_clock.0 / freq.0;
    let val: u8 = if ratio <= 2 {
        0b000
    } else if ratio <= 5 {
        0b001
    } else if ratio <= 11 {
        0b010
    } else if ratio <= 23 {
        0b011
    } else if ratio <= 39 {
        0b100
    } else if ratio <= 95 {
        0b101
    } else if ratio <= 191 {
        0b110
    } else {
        0b111
    };
    Br::from_bits(val)
}

/// The bus frequency that the prescaler `br` makes of `kernel_clock`.
pub open spec fn spec_compute_frequency(kernel_clock: Hertz, br: Br) -> Hertz {
    Hertz((kernel_clock.0 as int / br.spec_divisor() as int) as u32)
}

/// The bus frequency that the prescaler `br` makes of `kernel_clock`.
#[verifier::when_used_as_spec(spec_compute_frequency)]
pub fn compute_frequency(kernel_clock: Hertz, br: Br) -> (freq: Hertz)
    ensures
        freq == spec_compute_frequency(kernel_clock, br),
        freq.0 == kernel_clock.0 as int / br.spec_divisor() as int,
        freq.0 == (match br {
            Br::Div2 => kernel_clock.0 / 2,
            Br::Div4 => kernel_clock.0 / 4,
            Br::Div8 => kernel_clock.0 / 8,
            Br::Div16 => kernel_clock.0 / 16,
            Br::Div32 => kernel_clock.0 / 32,
            Br::Div64 => kernel_clock.0 / 64,
            Br::Div128 => kernel_clock.0 / 128,
            Br::Div256 => kernel_clock.0 / 256,
        }),
{
    let div: u16 = br.divisor();
    Hertz(kernel_clock.0 / (div as u32))
}

} // verus!
