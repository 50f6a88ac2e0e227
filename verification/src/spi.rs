//! The driver: what it knows of its peripheral, and the programs by which
//! it brings the peripheral up, reconfigures it and shuts it down.

use vstd::prelude::*;
use crate::config::{
    compute_baud_rate, compute_frequency, spec_compute_baud_rate, spec_compute_frequency,
    spec_frequency_reachable, BitOrder, Config, Hertz, Mode, Phase, Polarity, Pull,
};
use crate::program::{modify, AfType, Instr, Op, PinRole, Speed};
use crate::regs::{
    Bidimode, Comm, Cpha, Cpol, Dff, Frxth, Lsbfirst, Patch, Register, Registers, Rxonly, Ssiop,
    Ssom,
};
use crate::status::Condition;
use crate::version::{Family, Version};
use crate::word::{WordConfig, WordSize};

verus! {

/// What a peripheral instance keeps between the calls of its driver.  The
/// SPI driver keeps nothing there.
pub struct State {}

impl State {
    /// The state of an instance that no driver has used yet.
    pub fn new() -> (state: State)
        ensures
            state == (State {}),
    {
        State {}
    }
}

/// SPI driver.
///
/// The driver owns the knowledge of one peripheral: its revision, the input
/// clock it was built with, which pins and DMA channels are bound to it, and
/// the word size that is programmed at the moment.
pub struct Spi {
    version: Version,
    kernel_clock: Hertz,
    sck: bool,
    mosi: bool,
    miso: bool,
    tx_dma: bool,
    rx_dma: bool,
    current_word_size: WordSize,
}

/// What a driver knows of its peripheral.
pub struct SpiView {
    /// The revision of the peripheral.
    pub version: Version,
    /// The input clock, as found when the driver was built.
    pub kernel_clock: Hertz,
    /// Whether the driver owns a clock pin.
    pub sck: bool,
    /// Whether the driver owns a pin for data out.
    pub mosi: bool,
    /// Whether the driver owns a pin for data in.
    pub miso: bool,
    /// Whether the driver owns a DMA channel for the transmit side.
    pub tx_dma: bool,
    /// Whether the driver owns a DMA channel for the receive side.
    pub rx_dma: bool,
    /// The word size that the peripheral is programmed for.
    pub current_word_size: WordSize,
}

impl SpiView {
    /// The peripheral can move words of the size it is programmed for.
    pub open spec fn wf(self) -> bool {
        self.current_word_size.spec_supported(self.version)
    }
}

impl View for Spi {
    type V = SpiView;

    closed spec fn view(&self) -> SpiView {
        SpiView {
            version: self.version,
            kernel_clock: self.kernel_clock,
            sck: self.sck,
            mosi: self.mosi,
            miso: self.miso,
            tx_dma: self.tx_dma,
            rx_dma: self.rx_dma,
            current_word_size: self.current_word_size,
        }
    }
}

/// The instructions that switch the pins of a driver to the peripheral:
/// clock and data out are driven push-pull, data in is an input, all at the
/// highest speed; the clock pin is pulled to its idle level.
pub open spec fn pin_setup(sck: bool, mosi: bool, miso: bool, config: Config) -> Seq<Instr> {
    let clock = if sck {
        seq![
            Instr::Do(
                Op::ConfigurePin {
                    role: PinRole::Sck,
                    af_type: AfType::OutputPushPull,
                    speed: Speed::VeryHigh,
                    pull: config.spec_sck_pull_mode(),
                },
            ),
        ]
    } else {
        Seq::empty()
    };
    let data_out = if mosi {
        seq![
            Instr::Do(
                Op::ConfigurePin {
                    role: PinRole::Mosi,
                    af_type: AfType::OutputPushPull,
                    speed: Speed::VeryHigh,
                    pull: Pull::NoPull,
                },
            ),
        ]
    } else {
        Seq::empty()
    };
    let data_in = if miso {
        seq![
            Instr::Do(
                Op::ConfigurePin {
                    role: PinRole::Miso,
                    af_type: AfType::Input,
                    speed: Speed::VeryHigh,
                    pull: Pull::NoPull,
                },
            ),
        ]
    } else {
        Seq::empty()
    };
    clock + data_out + data_in
}

/// The instructions that bring a peripheral up as a bus master with the
/// given configuration and 8 bit words.
///
/// The peripheral is reset and clocked first.  It then becomes a master in
/// full duplex on two unidirectional lines, with the slave select managed
/// by software and hardware CRC off, and is enabled.  A first generation
/// driver without a pin for data out disables the output.  The third
/// generation has its flags cleared before anything else is programmed.
pub open spec fn init_program(version: Version, kernel_clock: Hertz, mosi: bool, config: Config) -> Seq<
    Instr,
> {
    let br = spec_compute_baud_rate(kernel_clock, config.frequency);
    let cpha = config.spec_raw_phase();
    let cpol = config.spec_raw_polarity();
    let lsbfirst = config.spec_raw_byte_order();
    match version.spec_family() {
        Family::Gen1 => seq![
            Instr::Do(Op::EnableAndReset),
            modify(Register::Cr2, Patch { ssoe: Some(false), ..Patch::empty() }),
            modify(
                Register::Cr1,
                Patch {
                    cpha: Some(cpha),
                    cpol: Some(cpol),
                    master: Some(true),
                    br: Some(br),
                    spe: Some(true),
                    lsbfirst: Some(lsbfirst),
                    ssi: Some(true),
                    ssm: Some(true),
                    crcen: Some(false),
                    bidimode: Some(Bidimode::Unidirectional),
                    rxonly: if mosi {
                        None
                    } else {
                        Some(Rxonly::OutputDisabled)
                    },
                    dff: Some(Dff::Bits8),
                    ..Patch::empty()
                },
            ),
        ],
        Family::Gen2 => seq![
            Instr::Do(Op::EnableAndReset),
            modify(
                Register::Cr2,
                Patch {
                    frxth: Some(Frxth::Quarter),
                    ds: Some(7u8),
                    ssoe: Some(false),
                    ..Patch::empty()
                },
            ),
            modify(
                Register::Cr1,
                Patch {
                    cpha: Some(cpha),
                    cpol: Some(cpol),
                    master: Some(true),
                    br: Some(br),
                    lsbfirst: Some(lsbfirst),
                    ssi: Some(true),
                    ssm: Some(true),
                    crcen: Some(false),
                    bidimode: Some(Bidimode::Unidirectional),
                    spe: Some(true),
                    ..Patch::empty()
                },
            ),
        ],
        Family::Gen3 => seq![
            Instr::Do(Op::EnableAndReset),
            Instr::Do(Op::ClearFlags),
            modify(
                Register::Cfg2,
                Patch {
                    ssoe: Some(false),
                    cpha: Some(cpha),
                    cpol: Some(cpol),
                    lsbfirst: Some(lsbfirst),
                    ssm: Some(true),
                    master: Some(true),
                    comm: Some(Comm::FullDuplex),
                    ssom: Some(Ssom::Asserted),
                    midi: Some(0u8),
                    mssi: Some(0u8),
                    afcntr: Some(true),
                    ssiop: Some(Ssiop::ActiveHigh),
                    ..Patch::empty()
                },
            ),
            modify(
                Register::Cfg1,
                Patch {
                    crcen: Some(false),
                    br: Some(br),
                    dsize: Some(7u8),
                    fthlv: Some(0u8),
                    ..Patch::empty()
                },
            ),
            modify(Register::Cr2, Patch { tsize: Some(0u16), ..Patch::empty() }),
            modify(
                Register::Cr1,
                Patch { ssi: Some(false), spe: Some(true), ..Patch::empty() },
            ),
        ],
    }
}

/// The instructions that reprogram mode, bit order and frequency.
pub open spec fn config_program(version: Version, kernel_clock: Hertz, config: Config) -> Seq<
    Instr,
> {
    let br = spec_compute_baud_rate(kernel_clock, config.frequency);
    let cpha = config.spec_raw_phase();
    let cpol = config.spec_raw_polarity();
    let lsbfirst = config.spec_raw_byte_order();
    match version.spec_family() {
        Family::Gen1 | Family::Gen2 => seq![
            modify(
                Register::Cr1,
                Patch {
                    cpha: Some(cpha),
                    cpol: Some(cpol),
                    br: Some(br),
                    lsbfirst: Some(lsbfirst),
                    ..Patch::empty()
                },
            ),
        ],
        Family::Gen3 => seq![
            modify(
                Register::Cfg2,
                Patch {
                    cpha: Some(cpha),
                    cpol: Some(cpol),
                    lsbfirst: Some(lsbfirst),
                    ..Patch::empty()
                },
            ),
            modify(Register::Cfg1, Patch { br: Some(br), ..Patch::empty() }),
        ],
    }
}

/// The configuration that the register fields `regs` stand for on a
/// peripheral that is fed with `kernel_clock`.
pub open spec fn read_config(kernel_clock: Hertz, regs: Registers) -> Config {
    Config {
        mode: Mode {
            polarity: if regs.cpol == Cpol::IdleLow {
                Polarity::IdleLow
            } else {
                Polarity::IdleHigh
            },
            phase: if regs.cpha == Cpha::FirstEdge {
                Phase::CaptureOnFirstTransition
            } else {
                Phase::CaptureOnSecondTransition
            },
        },
        bit_order: if regs.lsbfirst == Lsbfirst::LsbFirst {
            BitOrder::LsbFirst
        } else {
            BitOrder::MsbFirst
        },
        frequency: spec_compute_frequency(kernel_clock, regs.br),
    }
}

/// The instructions that change the word size from `current` to `new`.
///
/// Nothing is done where the size stays.  Otherwise the size fields are
/// written while the peripheral is disabled: the first two generations
/// clear the enable bit, write and set it again; the third suspends the
/// transfer, waits for it to complete, and only then disables, writes,
/// and in one access lifts the suspension and enables again.
pub open spec fn word_size_program(version: Version, current: WordSize, new: WordSize) -> Seq<
    Instr,
> {
    if current == new {
        Seq::empty()
    } else {
        match new.spec_config(version) {
            WordConfig::Dff(dff) => seq![
                modify(
                    Register::Cr1,
                    Patch { spe: Some(false), dff: Some(dff), ..Patch::empty() },
                ),
                modify(Register::Cr1, Patch { spe: Some(true), ..Patch::empty() }),
            ],
            WordConfig::DsFrxth(ds, frxth) => seq![
                modify(Register::Cr1, Patch { spe: Some(false), ..Patch::empty() }),
                modify(
                    Register::Cr2,
                    Patch { frxth: Some(frxth), ds: Some(ds), ..Patch::empty() },
                ),
                modify(Register::Cr1, Patch { spe: Some(true), ..Patch::empty() }),
            ],
            WordConfig::Dsize(dsize) => seq![
                modify(Register::Cr1, Patch { csusp: Some(true), ..Patch::empty() }),
                Instr::Wait(Condition::TransferComplete),
                modify(Register::Cr1, Patch { spe: Some(false), ..Patch::empty() }),
                modify(Register::Cfg1, Patch { dsize: Some(dsize), ..Patch::empty() }),
                modify(
                    Register::Cr1,
                    Patch { csusp: Some(false), spe: Some(true), ..Patch::empty() },
                ),
            ],
        }
    }
}

/// The instructions that give up a peripheral: the pins that the driver
/// owns are disconnected, then the clock is switched off.
pub open spec fn release_program(sck: bool, mosi: bool, miso: bool) -> Seq<Instr> {
    let clock = if sck {
        seq![Instr::Do(Op::DisconnectPin(PinRole::Sck))]
    } else {
        Seq::empty()
    };
    let data_out = if mosi {
        seq![Instr::Do(Op::DisconnectPin(PinRole::Mosi))]
    } else {
        Seq::empty()
    };
    let data_in = if miso {
        seq![Instr::Do(Op::DisconnectPin(PinRole::Miso))]
    } else {
        Seq::empty()
    };
    clock + data_out + data_in + seq![Instr::Do(Op::DisableClock)]
}

/// The frequency that the internal sub-GHz radio is clocked with: half of
/// its bus clock, but no more than 16 MHz.
pub open spec fn spec_subghz_frequency(pclk3: Hertz) -> Hertz {
    if pclk3.0 / 2 < 16_000_000 {
        Hertz((pclk3.0 / 2) as u32)
    } else {
        Hertz(16_000_000)
    }
}

/// The frequency that the internal sub-GHz radio is clocked with: half of
/// its bus clock, but no more than 16 MHz.
#[verifier::when_used_as_spec(spec_subghz_frequency)]
pub fn subghz_frequency(pclk3: Hertz) -> (freq: Hertz)
    ensures
        freq == spec_subghz_frequency(pclk3),
        freq.0 <= 16_000_000,
        freq.0 <= pclk3.0 / 2,
{
    let half: u32 = pclk3.0 / 2;
    if half < 16_000_000 {
        Hertz(half)
    } else {
        Hertz(16_000_000)
    }
}

/// The configuration of the internal sub-GHz radio: mode 0, most
/// significant bit first.
pub open spec fn subghz_config(pclk3: Hertz) -> Config {
    Config {
        mode: Mode::spec_mode_0(),
        bit_order: BitOrder::MsbFirst,
        frequency: spec_subghz_frequency(pclk3),
    }
}

impl Spi {
    #[verifier::type_invariant]
    spec fn supports_current_word_size(self) -> bool {
        self.current_word_size.spec_supported(self.version)
    }

    fn new_inner(
        version: Version,
        kernel_clock: Hertz,
        sck: bool,
        mosi: bool,
        miso: bool,
        tx_dma: bool,
        rx_dma: bool,
        config: Config,
    ) -> (made: (Spi, Vec<Instr>))
        requires
            spec_frequency_reachable(kernel_clock, config.frequency),
        ensures
            made.0@ == (SpiView {
                version,
                kernel_clock,
                sck,
                mosi,
                miso,
                tx_dma,
                rx_dma,
                current_word_size: WordSize { bits: 8 },
            }),
            made.1@ == init_program(version, kernel_clock, mosi, config),
    {
        let br = compute_baud_rate(kernel_clock, config.frequency);

        let cpha = config.raw_phase();
        let cpol = config.raw_polarity();

        let lsbfirst = config.raw_byte_order();

        let mut program: Vec<Instr> = Vec::new();
        program.push(Instr::Do(Op::EnableAndReset));

        match version.family() {
            Family::Gen1 => {
                program.push(
                    modify(Register::Cr2, Patch { ssoe: Some(false), ..Patch::empty() }),
                );
                program.push(
                    modify(
                        Register::Cr1,
                        Patch {
                            cpha: Some(cpha),
                            cpol: Some(cpol),
                            master: Some(true),
                            br: Some(br),
                            spe: Some(true),
                            lsbfirst: Some(lsbfirst),
                            ssi: Some(true),
                            ssm: Some(true),
                            crcen: Some(false),
                            bidimode: Some(Bidimode::Unidirectional),
                            rxonly: if mosi {
                                None
                            } else {
                                Some(Rxonly::OutputDisabled)
                            },
                            dff: Some(Dff::Bits8),
                            ..Patch::empty()
                        },
                    ),
                );
            },
            Family::Gen2 => {
                program.push(
                    modify(
                        Register::Cr2,
                        Patch {
                            frxth: Some(Frxth::Quarter),
                            ds: Some(7u8),
                            ssoe: Some(false),
                            ..Patch::empty()
                        },
                    ),
                );
                program.push(
                    modify(
                        Register::Cr1,
                        Patch {
                            cpha: Some(cpha),
                            cpol: Some(cpol),
                            master: Some(true),
                            br: Some(br),
                            lsbfirst: Some(lsbfirst),
                            ssi: Some(true),
                            ssm: Some(true),
                            crcen: Some(false),
                            bidimode: Some(Bidimode::Unidirectional),
                            spe: Some(true),
                            ..Patch::empty()
                        },
                    ),
                );
            },
            Family::Gen3 => {
                program.push(Instr::Do(Op::ClearFlags));
                program.push(
                    modify(
                        Register::Cfg2,
                        Patch {
                            ssoe: Some(false),
                            cpha: Some(cpha),
                            cpol: Some(cpol),
                            lsbfirst: Some(lsbfirst),
                            ssm: Some(true),
                            master: Some(true),
                            comm: Some(Comm::FullDuplex),
                            ssom: Some(Ssom::Asserted),
                            midi: Some(0u8),
                            mssi: Some(0u8),
                            afcntr: Some(true),
                            ssiop: Some(Ssiop::ActiveHigh),
                            ..Patch::empty()
                        },
                    ),
                );
                program.push(
                    modify(
                        Register::Cfg1,
                        Patch {
                            crcen: Some(false),
                            br: Some(br),
                            dsize: Some(7u8),
                            fthlv: Some(0u8),
                            ..Patch::empty()
                        },
                    ),
                );
                program.push(
                    modify(Register::Cr2, Patch { tsize: Some(0u16), ..Patch::empty() }),
                );
                program.push(
                    modify(
                        Register::Cr1,
                        Patch { ssi: Some(false), spe: Some(true), ..Patch::empty() },
                    ),
                );
            },
        }

        let spi = Spi {
            version,
            kernel_clock,
            sck,
            mosi,
            miso,
            tx_dma,
            rx_dma,
            current_word_size: WordSize { bits: 8 },
        };
        (spi, program)
    }

    /// Builds a driver with the given bindings: the pins are switched to
    /// the peripheral, then the peripheral is brought up.
    fn new_with_pins(
        version: Version,
        kernel_clock: Hertz,
        sck: bool,
        mosi: bool,
        miso: bool,
        tx_dma: bool,
        rx_dma: bool,
        config: Config,
    ) -> (made: (Spi, Vec<Instr>))
        requires
            spec_frequency_reachable(kernel_clock, config.frequency),
        ensures
            made.0@ == (SpiView {
                version,
                kernel_clock,
                sck,
                mosi,
                miso,
                tx_dma,
                rx_dma,
                current_word_size: WordSize { bits: 8 },
            }),
            made.1@ == pin_setup(sck, mosi, miso, config) + init_program(
                version,
                kernel_clock,
                mosi,
                config,
            ),
    {
        let mut program: Vec<Instr> = Vec::new();
        if sck {
            program.push(
                Instr::Do(
                    Op::ConfigurePin {
                        role: PinRole::Sck,
                        af_type: AfType::OutputPushPull,
                        speed: Speed::VeryHigh,
                        pull: config.sck_pull_mode(),
                    },
                ),
            );
        }
        if mosi {
            program.push(
                Instr::Do(
                    Op::ConfigurePin {
                        role: PinRole::Mosi,
                        af_type: AfType::OutputPushPull,
                        speed: Speed::VeryHigh,
                        pull: Pull::NoPull,
                    },
                ),
            );
        }
        if miso {
            program.push(
                Instr::Do(
                    Op::ConfigurePin {
                        role: PinRole::Miso,
                        af_type: AfType::Input,
                        speed: Speed::VeryHigh,
                        pull: Pull::NoPull,
                    },
                ),
            );
        }
        let (spi, mut init) = Spi::new_inner(
            version,
            kernel_clock,
            sck,
            mosi,
            miso,
            tx_dma,
            rx_dma,
            config,
        );
        program.append(&mut init);
        (spi, program)
    }

    /// Create a new blocking SPI driver.
    pub fn new_blocking(version: Version, kernel_clock: Hertz, config: Config) -> (made: (
        Spi,
        Vec<Instr>,
    ))
        requires
            spec_frequency_reachable(kernel_clock, config.frequency),
        ensures
            made.0@ == (SpiView {
                version,
                kernel_clock,
                sck: true,
                mosi: true,
                miso: true,
                tx_dma: false,
                rx_dma: false,
                current_word_size: WordSize { bits: 8 },
            }),
            made.1@ == pin_setup(true, true, true, config) + init_program(
                version,
                kernel_clock,
                true,
                config,
            ),
    {
        Spi::new_with_pins(version, kernel_clock, true, true, true, false, false, config)
    }

    /// Create a new blocking SPI driver, in RX-only mode (only MISO pin, no MOSI).
    pub fn new_blocking_rxonly(version: Version, kernel_clock: Hertz, config: Config) -> (made: (
        Spi,
        Vec<Instr>,
    ))
        requires
            spec_frequency_reachable(kernel_clock, config.frequency),
        ensures
            made.0@ == (SpiView {
                version,
                kernel_clock,
                sck: true,
                mosi: false,
                miso: true,
                tx_dma: false,
                rx_dma: false,
                current_word_size: WordSize { bits: 8 },
            }),
            made.1@ == pin_setup(true, false, true, config) + init_program(
                version,
                kernel_clock,
                false,
                config,
            ),
    {
        Spi::new_with_pins(version, kernel_clock, true, false, true, false, false, config)
    }

    /// Create a new blocking SPI driver, in TX-only mode (only MOSI pin, no MISO).
    pub fn new_blocking_txonly(version: Version, kernel_clock: Hertz, config: Config) -> (made: (
        Spi,
        Vec<Instr>,
    ))
        requires
            spec_frequency_reachable(kernel_clock, config.frequency),
        ensures
            made.0@ == (SpiView {
                version,
                kernel_clock,
                sck: true,
                mosi: true,
                miso: false,
                tx_dma: false,
                rx_dma: false,
                current_word_size: WordSize { bits: 8 },
            }),
            made.1@ == pin_setup(true, true, false, config) + init_program(
                version,
                kernel_clock,
                true,
                config,
            ),
    {
        Spi::new_with_pins(version, kernel_clock, true, true, false, false, false, config)
    }

    /// Create a new SPI driver, in TX-only mode, without SCK pin.
    ///
    /// This can be useful for bit-banging non-SPI protocols.
    pub fn new_blocking_txonly_nosck(
        version: Version,
        kernel_clock: Hertz,
        config: Config,
    ) -> (made: (Spi, Vec<Instr>))
        requires
            spec_frequency_reachable(kernel_clock, config.frequency),
        ensures
            made.0@ == (SpiView {
                version,
                kernel_clock,
                sck: false,
                mosi: true,
                miso: false,
                tx_dma: false,
                rx_dma: false,
                current_word_size: WordSize { bits: 8 },
            }),
            made.1@ == pin_setup(false, true, false, config) + init_program(
                version,
                kernel_clock,
                true,
                config,
            ),
    {
        Spi::new_with_pins(version, kernel_clock, false, true, false, false, false, config)
    }

    /// Create a new SPI driver.
    pub fn new(version: Version, kernel_clock: Hertz, config: Config) -> (made: (Spi, Vec<Instr>))
        requires
            spec_frequency_reachable(kernel_clock, config.frequency),
        ensures
            made.0@ == (SpiView {
                version,
                kernel_clock,
                sck: true,
                mosi: true,
                miso: true,
                tx_dma: true,
                rx_dma: true,
                current_word_size: WordSize { bits: 8 },
            }),
            made.1@ == pin_setup(true, true, true, config) + init_program(
                version,
                kernel_clock,
                true,
                config,
            ),
    {
        Spi::new_with_pins(version, kernel_clock, true, true, true, true, true, config)
    }

    /// Create a new SPI driver, in RX-only mode (only MISO pin, no MOSI).
    pub fn new_rxonly(version: Version, kernel_clock: Hertz, config: Config) -> (made: (
        Spi,
        Vec<Instr>,
    ))
        requires
            spec_frequency_reachable(kernel_clock, config.frequency),
        ensures
            made.0@ == (SpiView {
                version,
                kernel_clock,
                sck: true,
                mosi: false,
                miso: true,
                tx_dma: false,
                rx_dma: true,
                current_word_size: WordSize { bits: 8 },
            }),
            made.1@ == pin_setup(true, false, true, config) + init_program(
                version,
                kernel_clock,
                false,
                config,
            ),
    {
        Spi::new_with_pins(version, kernel_clock, true, false, true, false, true, config)
    }

    /// Create a new SPI driver, in TX-only mode (only MOSI pin, no MISO).
    pub fn new_txonly(version: Version, kernel_clock: Hertz, config: Config) -> (made: (
        Spi,
        Vec<Instr>,
    ))
        requires
            spec_frequency_reachable(kernel_clock, config.frequency),
        ensures
            made.0@ == (SpiView {
                version,
                kernel_clock,
                sck: true,
                mosi: true,
                miso: false,
                tx_dma: true,
                rx_dma: false,
                current_word_size: WordSize { bits: 8 },
            }),
            made.1@ == pin_setup(true, true, false, config) + init_program(
                version,
                kernel_clock,
                true,
                config,
            ),
    {
        Spi::new_with_pins(version, kernel_clock, true, true, false, true, false, config)
    }

    /// Create a new SPI driver, in TX-only mode, without SCK pin.
    ///
    /// This can be useful for bit-banging non-SPI protocols.
    pub fn new_txonly_nosck(version: Version, kernel_clock: Hertz, config: Config) -> (made: (
        Spi,
        Vec<Instr>,
    ))
        requires
            spec_frequency_reachable(kernel_clock, config.frequency),
        ensures
            made.0@ == (SpiView {
                version,
                kernel_clock,
                sck: false,
                mosi: true,
                miso: false,
                tx_dma: true,
                rx_dma: false,
                current_word_size: WordSize { bits: 8 },
            }),
            made.1@ == pin_setup(false, true, false, config) + init_program(
                version,
                kernel_clock,
                true,
                config,
            ),
    {
        Spi::new_with_pins(version, kernel_clock, false, true, false, true, false, config)
    }

    /// Useful for on chip peripherals like SUBGHZ which are hardwired.
    ///
    /// The radio's clock is half of its bus clock `pclk3` and must not
    /// exceed 16 MHz.
    pub fn new_subghz(version: Version, kernel_clock: Hertz, pclk3: Hertz) -> (made: (
        Spi,
        Vec<Instr>,
    ))
        requires
            spec_frequency_reachable(kernel_clock, spec_subghz_frequency(pclk3)),
        ensures
            made.0@ == (SpiView {
                version,
                kernel_clock,
                sck: false,
                mosi: false,
                miso: false,
                tx_dma: true,
                rx_dma: true,
                current_word_size: WordSize { bits: 8 },
            }),
            made.1@ == init_program(version, kernel_clock, false, subghz_config(pclk3)),
    {
        let freq = subghz_frequency(pclk3);
        let mut config = Config::default();
        config.mode = Mode::mode_0();
        config.bit_order = BitOrder::MsbFirst;
        config.frequency = freq;

        Spi::new_inner(version, kernel_clock, false, false, false, true, true, config)
    }

    /// Create a new SPI driver for a peripheral that is wired inside the
    /// chip and has no pins.
    pub fn new_internal(version: Version, kernel_clock: Hertz, config: Config) -> (made: (
        Spi,
        Vec<Instr>,
    ))
        requires
            spec_frequency_reachable(kernel_clock, config.frequency),
        ensures
            made.0@ == (SpiView {
                version,
                kernel_clock,
                sck: false,
                mosi: false,
                miso: false,
                tx_dma: true,
                rx_dma: true,
                current_word_size: WordSize { bits: 8 },
            }),
            made.1@ == init_program(version, kernel_clock, false, config),
    {
        Spi::new_inner(version, kernel_clock, false, false, false, true, true, config)
    }

    /// Reconfigures it with the supplied config.
    ///
    /// What the driver knows of its peripheral stays as it is: the word size
    /// is no part of the configuration.
    pub fn set_config(&mut self, config: &Config) -> (program: Vec<Instr>)
        requires
            spec_frequency_reachable(old(self)@.kernel_clock, config.frequency),
        ensures
            final(self)@ == old(self)@,
            program@ == config_program(old(self)@.version, old(self)@.kernel_clock, *config),
    {
        let cpha = config.raw_phase();
        let cpol = config.raw_polarity();

        let lsbfirst = config.raw_byte_order();

        let br = compute_baud_rate(self.kernel_clock, config.frequency);

        let mut program: Vec<Instr> = Vec::new();
        match self.version.family() {
            Family::Gen1 | Family::Gen2 => {
                program.push(
                    modify(
                        Register::Cr1,
                        Patch {
                            cpha: Some(cpha),
                            cpol: Some(cpol),
                            br: Some(br),
                            lsbfirst: Some(lsbfirst),
                            ..Patch::empty()
                        },
                    ),
                );
            },
            Family::Gen3 => {
                program.push(
                    modify(
                        Register::Cfg2,
                        Patch {
                            cpha: Some(cpha),
                            cpol: Some(cpol),
                            lsbfirst: Some(lsbfirst),
                            ..Patch::empty()
                        },
                    ),
                );
                program.push(
                    modify(Register::Cfg1, Patch { br: Some(br), ..Patch::empty() }),
                );
            },
        }
        program
    }

    /// Get current SPI configuration.
    ///
    /// `regs` holds the fields as they were read from the peripheral; only
    /// clock phase, clock polarity, frame format and prescaler are looked at.
    pub fn get_current_config(&self, regs: &Registers) -> (config: Config)
        ensures
            config == read_config(self@.kernel_clock, *regs),
    {
        let polarity = if regs.cpol == Cpol::IdleLow {
            Polarity::IdleLow
        } else {
            Polarity::IdleHigh
        };
        let phase = if regs.cpha == Cpha::FirstEdge {
            Phase::CaptureOnFirstTransition
        } else {
            Phase::CaptureOnSecondTransition
        };

        let bit_order = if regs.lsbfirst == Lsbfirst::LsbFirst {
            BitOrder::LsbFirst
        } else {
            BitOrder::MsbFirst
        };

        let frequency = compute_frequency(self.kernel_clock, regs.br);

        Config { mode: Mode { polarity, phase }, bit_order, frequency }
    }

    /// Makes `word_size` the programmed word size.
    pub fn set_word_size(&mut self, word_size: WordSize) -> (program: Vec<Instr>)
        requires
            word_size.spec_supported(old(self)@.version),
        ensures
            final(self)@ == (SpiView { current_word_size: word_size, ..old(self)@ }),
            program@ == word_size_program(
                old(self)@.version,
                old(self)@.current_word_size,
                word_size,
            ),
            word_size == old(self)@.current_word_size ==> program@.len() == 0 && final(self)@
                == old(self)@,
    {
        let mut program: Vec<Instr> = Vec::new();
        if self.current_word_size == word_size {
            return program;
        }
        match word_size.config(self.version) {
            WordConfig::Dff(dff) => {
                program.push(
                    modify(
                        Register::Cr1,
                        Patch { spe: Some(false), dff: Some(dff), ..Patch::empty() },
                    ),
                );
                program.push(
                    modify(Register::Cr1, Patch { spe: Some(true), ..Patch::empty() }),
                );
            },
            WordConfig::DsFrxth(ds, frxth) => {
                program.push(
                    modify(Register::Cr1, Patch { spe: Some(false), ..Patch::empty() }),
                );
                program.push(
                    modify(
                        Register::Cr2,
                        Patch { frxth: Some(frxth), ds: Some(ds), ..Patch::empty() },
                    ),
                );
                program.push(
                    modify(Register::Cr1, Patch { spe: Some(true), ..Patch::empty() }),
                );
            },
            WordConfig::Dsize(dsize) => {
                program.push(
                    modify(Register::Cr1, Patch { csusp: Some(true), ..Patch::empty() }),
                );
                program.push(Instr::Wait(Condition::TransferComplete));
                program.push(
                    modify(Register::Cr1, Patch { spe: Some(false), ..Patch::empty() }),
                );
                program.push(
                    modify(Register::Cfg1, Patch { dsize: Some(dsize), ..Patch::empty() }),
                );
                program.push(
                    modify(
                        Register::Cr1,
                        Patch { csusp: Some(false), spe: Some(true), ..Patch::empty() },
                    ),
                );
            },
        }

        self.current_word_size = word_size;
        program
    }

    /// Gives the peripheral up.
    pub fn release(self) -> (program: Vec<Instr>)
        ensures
            program@ == release_program(self@.sck, self@.mosi, self@.miso),
    {
        let mut program: Vec<Instr> = Vec::new();
        if self.sck {
            program.push(Instr::Do(Op::DisconnectPin(PinRole::Sck)));
        }
        if self.mosi {
            program.push(Instr::Do(Op::DisconnectPin(PinRole::Mosi)));
        }
        if self.miso {
            program.push(Instr::Do(Op::DisconnectPin(PinRole::Miso)));
        }
        program.push(Instr::Do(Op::DisableClock));
        program
    }

    /// The revision of the peripheral.
    pub fn version(&self) -> (version: Version)
        ensures
            version == self@.version,
    {
        self.version
    }

    /// The input clock of the peripheral, as found when the driver was built.
    pub fn kernel_clock(&self) -> (kernel_clock: Hertz)
        ensures
            kernel_clock == self@.kernel_clock,
    {
        self.kernel_clock
    }

    /// The word size that the peripheral is programmed for.
    pub fn current_word_size(&self) -> (word_size: WordSize)
        ensures
            word_size == self@.current_word_size,
            self@.wf(),
    {
        proof {
            use_type_invariant(self);
        }
        self.current_word_size
    }

    /// Whether the driver owns a DMA channel for the transmit side.
    pub fn has_tx_dma(&self) -> (tx_dma: bool)
        ensures
            tx_dma == self@.tx_dma,
    {
        self.tx_dma
    }

    /// Whether the driver owns a DMA channel for the receive side.
    pub fn has_rx_dma(&self) -> (rx_dma: bool)
        ensures
            rx_dma == self@.rx_dma,
    {
        self.rx_dma
    }
}

} // verus!
