//! Hardware-independent core of an SPI master driver for the STM32 SPI
//! peripheral family.
//!
//! The crate decides *what* has to be done to the peripheral and in which
//! order; it never touches a register itself.  A driver shell performs the
//! emitted actions on the real hardware and reports back what it observed.
//!
//! - [`version`] names the hardware generations.
//! - [`regs`] models the control fields and single register accesses.
//! - [`config`] holds the bus configuration and the prescaler search.
//! - [`word`] holds the word sizes and their encodings.
//! - [`status`] decides on samples of the status register.
//! - [`program`] is the vocabulary of instructions.
//! - [`spi`], [`blocking`] and [`dma`] hold the driver and its programs.
//! - [`sequencer`] runs a program step by step.
//! - [`laws`] and [`loopback`] state and prove what holds of all this.

pub mod blocking;
pub mod config;
pub mod dma;
pub mod error;
pub mod laws;
pub mod loopback;
pub mod program;
pub mod regs;
pub mod sequencer;
pub mod spi;
pub mod status;
pub mod version;
pub mod word;
