//! Errors reported by the peripheral.

use vstd::prelude::*;

verus! {

/// SPI error.
#[derive(Clone, Copy, Debug, PartialEq, Eq, Structural)]
pub enum Error {
    /// Invalid framing.
    Framing,
    /// CRC error (only if hardware CRC checking is enabled).
    Crc,
    /// Mode fault.
    ModeFault,
    /// Overrun.
    Overrun,
}

/// Generic classification of an SPI error, as understood by bus-agnostic
/// protocol code.
#[derive(Clone, Copy, Debug, PartialEq, Eq, Structural)]
pub enum ErrorKind {
    /// The peripheral receive buffer was overrun.
    Overrun,
    /// Multiple devices on the SPI bus are trying to drive the slave select pin.
    ModeFault,
    /// Received data does not conform to the peripheral configuration.
    FrameFormat,
    /// An error occurred while asserting or deasserting the chip-select pin.
    ChipSelectFault,
    /// A different error occurred.
    Other,
}

impl Error {
    /// The generic classification of this error.
    pub open spec fn spec_kind(self) -> ErrorKind {
        match self {
            Error::Framing => ErrorKind::FrameFormat,
            Error::Crc => ErrorKind::Other,
            Error::ModeFault => ErrorKind::ModeFault,
            Error::Overrun => ErrorKind::Overrun,
        }
    }

    /// The generic classification of this error.
    #[verifier::when_used_as_spec(spec_kind)]
    pub fn kind(self) -> (kind: ErrorKind)
        ensures
            kind == self.spec_kind(),
    {
        match self {
            Error::Framing => ErrorKind::FrameFormat,
            Error::Crc => ErrorKind::Other,
            Error::ModeFault => ErrorKind::ModeFault,
            Error::Overrun => ErrorKind::Overrun,
        }
    }
}

} // verus!
