//! The status register and the decisions taken on it.
//!
//! A driver never waits inside this crate.  Each function here takes one
//! sample of the status register and says what a waiting driver does on it:
//! go on, poll once more, or give up with an error.

use vstd::prelude::*;
use crate::error::Error;
use crate::version::{Family, Version};

verus! {

/// One sample of the status register.
///
/// The flags carry different names in the three generations; a flag that a
/// generation lacks is sampled as `false` (as zero, for the FIFO level).
#[derive(Clone, Copy, Debug, PartialEq, Eq, Structural)]
pub struct Status {
    /// Overrun: a word arrived before the one before it was read.
    pub overrun: bool,
    /// Frame format error.
    pub frame_error: bool,
    /// Mode fault: another master drives the bus.
    pub mode_fault: bool,
    /// CRC error.
    pub crc_error: bool,
    /// The transmit data register takes another word.
    pub tx_ready: bool,
    /// The receive data register holds a word.
    pub rx_ready: bool,
    /// The shifter is busy (first and second generation).
    pub busy: bool,
    /// The transfer is complete (third generation).
    pub transfer_complete: bool,
    /// Fill level of the transmit FIFO (second generation).
    pub tx_fifo_level: u8,
}

/// A state of the peripheral that a driver waits for without looking at the
/// error flags.
#[derive(Clone, Copy, Debug, PartialEq, Eq, Structural)]
pub enum Condition {
    /// The transfer-complete flag is set.
    TransferComplete,
    /// The busy flag is clear.
    NotBusy,
    /// The transmit FIFO is empty.
    TxFifoEmpty,
}

/// The direction a driver waits for before it moves a word.
#[derive(Clone, Copy, Debug, PartialEq, Eq, Structural)]
pub enum Readiness {
    /// The peripheral takes a word to transmit.
    Transmit,
    /// The peripheral holds a received word.
    Receive,
}

impl Condition {
    /// Whether the condition holds in the sample `sr`.
    pub open spec fn spec_holds(self, sr: Status) -> bool {
        match self {
            Condition::TransferComplete => sr.transfer_complete,
            Condition::NotBusy => !sr.busy,
            Condition::TxFifoEmpty => sr.tx_fifo_level == 0,
        }
    }

    /// Whether the condition holds in the sample `sr`.
    #[verifier::when_used_as_spec(spec_holds)]
    pub fn holds(self, sr: Status) -> (holds: bool)
        ensures
            holds == self.spec_holds(sr),
    {
        match self {
            Condition::TransferComplete => sr.transfer_complete,
            Condition::NotBusy => !sr.busy,
            Condition::TxFifoEmpty => sr.tx_fifo_level == 0,
        }
    }

    /// Whether a peripheral of the given revision has the flag that the
    /// condition looks at.
    pub open spec fn available(self, version: Version) -> bool {
        match self {
            Condition::TransferComplete => version.spec_family() == Family::Gen3,
            Condition::NotBusy => version.spec_family() != Family::Gen3,
            Condition::TxFifoEmpty => version.spec_family() == Family::Gen2,
        }
    }
}

/// The error that the sample `sr` reports on a peripheral of the given
/// revision, if any.
///
/// The flags are looked at in a fixed order: overrun, frame format, mode
/// fault, CRC.  The first one that is set decides; the legacy revision has
/// no frame format flag.
pub open spec fn spec_check_error_flags(version: Version, sr: Status) -> Result<(), Error> {
    if sr.overrun {
        Err(Error::Overrun)
    } else if version.spec_has_frame_error() && sr.frame_error {
        Err(Error::Framing)
    } else if sr.mode_fault {
        Err(Error::ModeFault)
    } else if sr.crc_error {
        Err(Error::Crc)
    } else {
        Ok(())
    }
}

/// Looks for an error flag in one sample of the status register.
#[verifier::when_used_as_spec(spec_check_error_flags)]
pub fn check_error_flags(version: Version, sr: Status) -> (result: Result<(), Error>)
    ensures
        result == spec_check_error_flags(version, sr),
{
    if sr.overrun {
        return Err(Error::Overrun);
    }
    if version.has_frame_error() && sr.frame_error {
        return Err(Error::Framing);
    }
    if sr.mode_fault {
        return Err(Error::ModeFault);
    }
    if sr.crc_error {
        return Err(Error::Crc);
    }
    Ok(())
}

/// What a driver that waits to transmit does on the sample `sr`: `None` to
/// poll once more, `Some(Ok(()))` to go on, `Some(Err(_))` to give up.
pub open spec fn spec_spin_until_tx_ready(version: Version, sr: Status) -> Option<
    Result<(), Error>,
> {
    match spec_check_error_flags(version, sr) {
        Err(e) => Some(Err(e)),
        Ok(()) => if sr.tx_ready {
            Some(Ok(()))
        } else {
            None
        },
    }
}

/// One turn of the wait for the transmit side.
///
/// An error flag ends the wait whether or not the peripheral is ready.
#[verifier::when_used_as_spec(spec_spin_until_tx_ready)]
pub fn spin_until_tx_ready(version: Version, sr: Status) -> (turn: Option<Result<(), Error>>)
    ensures
        turn == spec_spin_until_tx_ready(version, sr),
{
    match check_error_flags(version, sr) {
        Err(e) => Some(Err(e)),
        Ok(()) => {
            if sr.tx_ready {
                Some(Ok(()))
            } else {
                None
            }
        },
    }
}

/// What a driver that waits to receive does on the sample `sr`: `None` to
/// poll once more, `Some(Ok(()))` to go on, `Some(Err(_))` to give up.
pub open spec fn spec_spin_until_rx_ready(version: Version, sr: Status) -> Option<
    Result<(), Error>,
> {
    match spec_check_error_flags(version, sr) {
        Err(e) => Some(Err(e)),
        Ok(()) => if sr.rx_ready {
            Some(Ok(()))
        } else {
            None
        },
    }
}

/// One turn of the wait for the receive side.
///
/// An error flag ends the wait whether or not the peripheral is ready.
#[verifier::when_used_as_spec(spec_spin_until_rx_ready)]
pub fn spin_until_rx_ready(version: Version, sr: Status) -> (turn: Option<Result<(), Error>>)
    ensures
        turn == spec_spin_until_rx_ready(version, sr),
{
    match check_error_flags(version, sr) {
        Err(e) => Some(Err(e)),
        Ok(()) => {
            if sr.rx_ready {
                Some(Ok(()))
            } else {
                None
            }
        },
    }
}

/// What a driver that waits for `readiness` does on the sample `sr`.
pub open spec fn spec_spin_until_ready(readiness: Readiness, version: Version, sr: Status) -> Option<
    Result<(), Error>,
> {
    match readiness {
        Readiness::Transmit => spec_spin_until_tx_ready(version, sr),
        Readiness::Receive => spec_spin_until_rx_ready(version, sr),
    }
}

/// Whether a driver that drains the receive side has to discard a word on
/// the sample `sr`: it does while the peripheral holds one.  The third
/// generation is never drained: it empties its receive side by itself
/// whenever it is disabled, so that no word is read from it.
pub open spec fn spec_flush_rx_fifo(version: Version, sr: Status) -> bool {
    !version.spec_is_gen3() && sr.rx_ready
}

/// One turn of the drain of stale received words: `true` to read one word,
/// throw it away and poll once more, `false` when the receive side is empty
/// or the peripheral is of the third generation.
#[verifier::when_used_as_spec(spec_flush_rx_fifo)]
pub fn flush_rx_fifo(version: Version, sr: Status) -> (discard: bool)
    ensures
        discard == spec_flush_rx_fifo(version, sr),
{
    !version.is_gen3() && sr.rx_ready
}

} // verus!
