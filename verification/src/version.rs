//! The hardware generations of the SPI peripheral.

use vstd::prelude::*;

verus! {

/// A revision of the SPI peripheral.
///
/// The revision of a peripheral is fixed; a driver is built for one of them
/// and keeps it for its whole life.
#[derive(Clone, Copy, Debug, PartialEq, Eq, Structural)]
pub enum Version {
    /// First generation.
    V1,
    /// First generation, legacy variant without a frame-format error flag.
    F1,
    /// Second generation: data sizes of 4 to 16 bits and a receive FIFO
    /// threshold.
    V2,
    /// Third generation.
    V3,
    /// Third generation, second revision.
    V4,
    /// Third generation, third revision.
    V5,
}

/// A family of revisions that share one register layout.
#[derive(Clone, Copy, Debug, PartialEq, Eq, Structural)]
pub enum Family {
    /// Control registers CR1 and CR2, 8 or 16 bit frames.
    Gen1,
    /// Control registers CR1 and CR2, 4 to 16 bit frames.
    Gen2,
    /// Control registers CR1, CR2, CFG1 and CFG2, 4 to 32 bit frames.
    Gen3,
}

impl Version {
    /// The register layout family of this revision.
    pub open spec fn spec_family(self) -> Family {
        match self {
            Version::V1 | Version::F1 => Family::Gen1,
            Version::V2 => Family::Gen2,
            Version::V3 | Version::V4 | Version::V5 => Family::Gen3,
        }
    }

    /// The register layout family of this revision.
    #[verifier::when_used_as_spec(spec_family)]
    pub fn family(self) -> (family: Family)
        ensures
            family == self.spec_family(),
    {
        match self {
            Version::V1 | Version::F1 => Family::Gen1,
            Version::V2 => Family::Gen2,
            Version::V3 | Version::V4 | Version::V5 => Family::Gen3,
        }
    }

    /// Whether this revision belongs to the third generation.
    pub open spec fn spec_is_gen3(self) -> bool {
        self.spec_family() == Family::Gen3
    }

    /// Whether this revision belongs to the third generation.
    #[verifier::when_used_as_spec(spec_is_gen3)]
    pub fn is_gen3(self) -> (gen3: bool)
        ensures
            gen3 == self.spec_is_gen3(),
    {
        match self {
            Version::V3 | Version::V4 | Version::V5 => true,
            _ => false,
        }
    }

    /// Whether the status register of this revision has a frame-format
    /// error flag.
    pub open spec fn spec_has_frame_error(self) -> bool {
        self != Version::F1
    }

    /// Whether the status register of this revision has a frame-format
    /// error flag.
    #[verifier::when_used_as_spec(spec_has_frame_error)]
    pub fn has_frame_error(self) -> (has: bool)
        ensures
            has == self.spec_has_frame_error(),
    {
        match self {
            Version::F1 => false,
            _ => true,
        }
    }
}

} // verus!
