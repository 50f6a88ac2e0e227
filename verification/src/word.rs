//! Word sizes and their generation-specific encodings.

use vstd::prelude::*;
use crate::regs::{Dff, Frxth};
use crate::version::{Family, Version};

verus! {

/// The number of bits of one word on the bus.
#[derive(Clone, Copy, Debug, PartialEq, Eq, Structural)]
pub struct WordSize {
    /// The number of bits.
    pub bits: u8,
}

/// The register encoding of a word size: what the word-size fields of one
/// generation have to hold for it.
#[derive(Clone, Copy, Debug, PartialEq, Eq, Structural)]
pub enum WordConfig {
    /// First generation: the data frame format.
    Dff(Dff),
    /// Second generation: the data size field and the receive FIFO
    /// threshold that goes with it.
    DsFrxth(u8, Frxth),
    /// Third generation: the data size field.
    Dsize(u8),
}

/// The width of one access to a data register.
#[derive(Clone, Copy, Debug, PartialEq, Eq, Structural)]
pub enum Access {
    /// 8 bits.
    Byte,
    /// 16 bits.
    HalfWord,
    /// 32 bits.
    Word,
}

impl Access {
    /// The number of bytes that the access moves.
    pub open spec fn spec_bytes(self) -> usize {
        match self {
            Access::Byte => 1,
            Access::HalfWord => 2,
            Access::Word => 4,
        }
    }

    /// The number of bytes that the access moves.
    #[verifier::when_used_as_spec(spec_bytes)]
    pub fn bytes(self) -> (bytes: usize)
        ensures
            bytes == self.spec_bytes(),
    {
        match self {
            Access::Byte => 1,
            Access::HalfWord => 2,
            Access::Word => 4,
        }
    }
}

impl WordSize {
    /// Whether the peripheral family knows this size at all: 4 to 32 bits.
    pub open spec fn valid(self) -> bool {
        4 <= self.bits <= 32
    }

    /// The word size of `bits` bits, if the peripheral family knows one.
    pub fn new(bits: u8) -> (size: Option<WordSize>)
        ensures
            size is Some <==> 4 <= bits <= 32,
            size matches Some(s) ==> s.bits == bits,
    {
        if 4 <= bits && bits <= 32 {
            Some(WordSize { bits })
        } else {
            None
        }
    }

    /// Whether a peripheral of the given revision can move words of this
    /// size.
    pub open spec fn spec_supported(self, version: Version) -> bool {
        match version.spec_family() {
            Family::Gen1 => self.bits == 8 || self.bits == 16,
            Family::Gen2 => 4 <= self.bits <= 16,
            Family::Gen3 => 4 <= self.bits <= 32,
        }
    }

    /// Whether a peripheral of the given revision can move words of this
    /// size.
    #[verifier::when_used_as_spec(spec_supported)]
    pub fn supported(self, version: Version) -> (supported: bool)
        ensures
            supported == self.spec_supported(version),
    {
        match version.family() {
            Family::Gen1 => self.bits == 8 || self.bits == 16,
            Family::Gen2 => 4 <= self.bits && self.bits <= 16,
            Family::Gen3 => 4 <= self.bits && self.bits <= 32,
        }
    }

    /// The narrowest access to a data register that moves a whole word of
    /// this size.
    pub open spec fn spec_access(self) -> Access {
        if self.bits <= 8 {
            Access::Byte
        } else if self.bits <= 16 {
            Access::HalfWord
        } else {
            Access::Word
        }
    }

    /// The narrowest access to a data register that moves a whole word of
    /// this size.
    #[verifier::when_used_as_spec(spec_access)]
    pub fn access(self) -> (access: Access)
        ensures
            access == self.spec_access(),
            self.valid() ==> self.bits <= 8 * access.spec_bytes(),
            access != Access::Byte ==> self.bits > 4 * access.spec_bytes(),
    {
        if self.bits <= 8 {
            Access::Byte
        } else if self.bits <= 16 {
            Access::HalfWord
        } else {
            Access::Word
        }
    }

    /// The receive FIFO threshold for this size: a quarter for words that
    /// fit a byte, a half for wider ones.
    pub open spec fn spec_frxth(self) -> Frxth {
        if self.bits <= 8 {
            Frxth::Quarter
        } else {
            Frxth::Half
        }
    }

    /// The encoding of this size on a peripheral of the given revision.
    pub open spec fn spec_config(self, version: Version) -> WordConfig {
        match version.spec_family() {
            Family::Gen1 => WordConfig::Dff(
                if self.bits == 8 {
                    Dff::Bits8
                } else {
                    Dff::Bits16
                },
            ),
            Family::Gen2 => WordConfig::DsFrxth((self.bits - 1) as u8, self.spec_frxth()),
            Family::Gen3 => WordConfig::Dsize((self.bits - 1) as u8),
        }
    }

    /// The encoding of this size on a peripheral of the given revision.
    #[verifier::when_used_as_spec(spec_config)]
    pub fn config(self, version: Version) -> (config: WordConfig)
        requires
            self.spec_supported(version),
        ensures
            config == self.spec_config(version),
    {
        match version.family() {
            Family::Gen1 => WordConfig::Dff(
                if self.bits == 8 {
                    Dff::Bits8
                } else {
                    Dff::Bits16
                },
            ),
            Family::Gen2 => WordConfig::DsFrxth(
                self.bits - 1,
                if self.bits <= 8 {
                    Frxth::Quarter
                } else {
                    Frxth::Half
                },
            ),
            Family::Gen3 => WordConfig::Dsize(self.bits - 1),
        }
    }
}

/// Word sizes usable for SPI.
///
/// A type that implements `Word` is the element type of a transfer; its
/// size is the number of bits that the peripheral shifts for each element.
/// There is one type for every size from 4 to 32 bits: `u8`, `u16` and
/// `u32` for the sizes of the primitive integers, and a type named after
/// its size for each of the others.
pub trait Word: Sized {
    /// The size of one word of this type.
    spec fn spec_size() -> WordSize;

    /// The size of one word of this type.
    fn size() -> (size: WordSize)
        ensures
            size == Self::spec_size(),
    ;
}

impl Word for u8 {
    open spec fn spec_size() -> WordSize {
        WordSize { bits: 8 }
    }

    fn size() -> (size: WordSize) {
        WordSize { bits: 8 }
    }
}

impl Word for u16 {
    open spec fn spec_size() -> WordSize {
        WordSize { bits: 16 }
    }

    fn size() -> (size: WordSize) {
        WordSize { bits: 16 }
    }
}

impl Word for u32 {
    open spec fn spec_size() -> WordSize {
        WordSize { bits: 32 }
    }

    fn size() -> (size: WordSize) {
        WordSize { bits: 32 }
    }
}

/// A word of 4 bits, held in the low bits of a byte.
#[derive(Clone, Copy, Debug, Default, PartialEq, Eq, Structural)]
pub struct U4(pub u8);

impl Word for U4 {
    open spec fn spec_size() -> WordSize {
        WordSize { bits: 4 }
    }

    fn size() -> (size: WordSize) {
        WordSize { bits: 4 }
    }
}

/// A word of 5 bits, held in the low bits of a byte.
#[derive(Clone, Copy, Debug, Default, PartialEq, Eq, Structural)]
pub struct U5(pub u8);

impl Word for U5 {
    open spec fn spec_size() -> WordSize {
        WordSize { bits: 5 }
    }

    fn size() -> (size: WordSize) {
        WordSize { bits: 5 }
    }
}

/// A word of 6 bits, held in the low bits of a byte.
#[derive(Clone, Copy, Debug, Default, PartialEq, Eq, Structural)]
pub struct U6(pub u8);

impl Word for U6 {
    open spec fn spec_size() -> WordSize {
        WordSize { bits: 6 }
    }

    fn size() -> (size: WordSize) {
        WordSize { bits: 6 }
    }
}

/// A word of 7 bits, held in the low bits of a byte.
#[derive(Clone, Copy, Debug, Default, PartialEq, Eq, Structural)]
pub struct U7(pub u8);

impl Word for U7 {
    open spec fn spec_size() -> WordSize {
        WordSize { bits: 7 }
    }

    fn size() -> (size: WordSize) {
        WordSize { bits: 7 }
    }
}

/// A word of 9 bits, held in the low bits of a half-word.
#[derive(Clone, Copy, Debug, Default, PartialEq, Eq, Structural)]
pub struct U9(pub u16);

impl Word for U9 {
    open spec fn spec_size() -> WordSize {
        WordSize { bits: 9 }
    }

    fn size() -> (size: WordSize) {
        WordSize { bits: 9 }
    }
}

/// A word of 10 bits, held in the low bits of a half-word.
#[derive(Clone, Copy, Debug, Default, PartialEq, Eq, Structural)]
pub struct U10(pub u16);

impl Word for U10 {
    open spec fn spec_size() -> WordSize {
        WordSize { bits: 10 }
    }

    fn size() -> (size: WordSize) {
        WordSize { bits: 10 }
    }
}

/// A word of 11 bits, held in the low bits of a half-word.
#[derive(Clone, Copy, Debug, Default, PartialEq, Eq, Structural)]
pub struct U11(pub u16);

impl Word for U11 {
    open spec fn spec_size() -> WordSize {
        WordSize { bits: 11 }
    }

    fn size() -> (size: WordSize) {
        WordSize { bits: 11 }
    }
}

/// A word of 12 bits, held in the low bits of a half-word.
#[derive(Clone, Copy, Debug, Default, PartialEq, Eq, Structural)]
pub struct U12(pub u16);

impl Word for U12 {
    open spec fn spec_size() -> WordSize {
        WordSize { bits: 12 }
    }

    fn size() -> (size: WordSize) {
        WordSize { bits: 12 }
    }
}

/// A word of 13 bits, held in the low bits of a half-word.
#[derive(Clone, Copy, Debug, Default, PartialEq, Eq, Structural)]
pub struct U13(pub u16);

impl Word for U13 {
    open spec fn spec_size() -> WordSize {
        WordSize { bits: 13 }
    }

    fn size() -> (size: WordSize) {
        WordSize { bits: 13 }
    }
}

/// A word of 14 bits, held in the low bits of a half-word.
#[derive(Clone, Copy, Debug, Default, PartialEq, Eq, Structural)]
pub struct U14(pub u16);

impl Word for U14 {
    open spec fn spec_size() -> WordSize {
        WordSize { bits: 14 }
    }

    fn size() -> (size: WordSize) {
        WordSize { bits: 14 }
    }
}

/// A word of 15 bits, held in the low bits of a half-word.
#[derive(Clone, Copy, Debug, Default, PartialEq, Eq, Structural)]
pub struct U15(pub u16);

impl Word for U15 {
    open spec fn spec_size() -> WordSize {
        WordSize { bits: 15 }
    }

    fn size() -> (size: WordSize) {
        WordSize { bits: 15 }
    }
}

/// A word of 17 bits, held in the low bits of a word of 32 bits.
#[derive(Clone, Copy, Debug, Default, PartialEq, Eq, Structural)]
pub struct U17(pub u32);

impl Word for U17 {
    open spec fn spec_size() -> WordSize {
        WordSize { bits: 17 }
    }

    fn size() -> (size: WordSize) {
        WordSize { bits: 17 }
    }
}

/// A word of 18 bits, held in the low bits of a word of 32 bits.
#[derive(Clone, Copy, Debug, Default, PartialEq, Eq, Structural)]
pub struct U18(pub u32);

impl Word for U18 {
    open spec fn spec_size() -> WordSize {
        WordSize { bits: 18 }
    }

    fn size() -> (size: WordSize) {
        WordSize { bits: 18 }
    }
}

/// A word of 19 bits, held in the low bits of a word of 32 bits.
#[derive(Clone, Copy, Debug, Default, PartialEq, Eq, Structural)]
pub struct U19(pub u32);

impl Word for U19 {
    open spec fn spec_size() -> WordSize {
        WordSize { bits: 19 }
    }

    fn size() -> (size: WordSize) {
        WordSize { bits: 19 }
    }
}

/// A word of 20 bits, held in the low bits of a word of 32 bits.
#[derive(Clone, Copy, Debug, Default, PartialEq, Eq, Structural)]
pub struct U20(pub u32);

impl Word for U20 {
    open spec fn spec_size() -> WordSize {
        WordSize { bits: 20 }
    }

    fn size() -> (size: WordSize) {
        WordSize { bits: 20 }
    }
}

/// A word of 21 bits, held in the low bits of a word of 32 bits.
#[derive(Clone, Copy, Debug, Default, PartialEq, Eq, Structural)]
pub struct U21(pub u32);

impl Word for U21 {
    open spec fn spec_size() -> WordSize {
        WordSize { bits: 21 }
    }

    fn size() -> (size: WordSize) {
        WordSize { bits: 21 }
    }
}

/// A word of 22 bits, held in the low bits of a word of 32 bits.
#[derive(Clone, Copy, Debug, Default, PartialEq, Eq, Structural)]
pub struct U22(pub u32);

impl Word for U22 {
    open spec fn spec_size() -> WordSize {
        WordSize { bits: 22 }
    }

    fn size() -> (size: WordSize) {
        WordSize { bits: 22 }
    }
}

/// A word of 23 bits, held in the low bits of a word of 32 bits.
#[derive(Clone, Copy, Debug, Default, PartialEq, Eq, Structural)]
pub struct U23(pub u32);

impl Word for U23 {
    open spec fn spec_size() -> WordSize {
        WordSize { bits: 23 }
    }

    fn size() -> (size: WordSize) {
        WordSize { bits: 23 }
    }
}

/// A word of 24 bits, held in the low bits of a word of 32 bits.
#[derive(Clone, Copy, Debug, Default, PartialEq, Eq, Structural)]
pub struct U24(pub u32);

impl Word for U24 {
    open spec fn spec_size() -> WordSize {
        WordSize { bits: 24 }
    }

    fn size() -> (size: WordSize) {
        WordSize { bits: 24 }
    }
}

/// A word of 25 bits, held in the low bits of a word of 32 bits.
#[derive(Clone, Copy, Debug, Default, PartialEq, Eq, Structural)]
pub struct U25(pub u32);

impl Word for U25 {
    open spec fn spec_size() -> WordSize {
        WordSize { bits: 25 }
    }

    fn size() -> (size: WordSize) {
        WordSize { bits: 25 }
    }
}

/// A word of 26 bits, held in the low bits of a word of 32 bits.
#[derive(Clone, Copy, Debug, Default, PartialEq, Eq, Structural)]
pub struct U26(pub u32);

impl Word for U26 {
    open spec fn spec_size() -> WordSize {
        WordSize { bits: 26 }
    }

    fn size() -> (size: WordSize) {
        WordSize { bits: 26 }
    }
}

/// A word of 27 bits, held in the low bits of a word of 32 bits.
#[derive(Clone, Copy, Debug, Default, PartialEq, Eq, Structural)]
pub struct U27(pub u32);

impl Word for U27 {
    open spec fn spec_size() -> WordSize {
        WordSize { bits: 27 }
    }

    fn size() -> (size: WordSize) {
        WordSize { bits: 27 }
    }
}

/// A word of 28 bits, held in the low bits of a word of 32 bits.
#[derive(Clone, Copy, Debug, Default, PartialEq, Eq, Structural)]
pub struct U28(pub u32);

impl Word for U28 {
    open spec fn spec_size() -> WordSize {
        WordSize { bits: 28 }
    }

    fn size() -> (size: WordSize) {
        WordSize { bits: 28 }
    }
}

/// A word of 29 bits, held in the low bits of a word of 32 bits.
#[derive(Clone, Copy, Debug, Default, PartialEq, Eq, Structural)]
pub struct U29(pub u32);

impl Word for U29 {
    open spec fn spec_size() -> WordSize {
        WordSize { bits: 29 }
    }

    fn size() -> (size: WordSize) {
        WordSize { bits: 29 }
    }
}

/// A word of 30 bits, held in the low bits of a word of 32 bits.
#[derive(Clone, Copy, Debug, Default, PartialEq, Eq, Structural)]
pub struct U30(pub u32);

impl Word for U30 {
    open spec fn spec_size() -> WordSize {
        WordSize { bits: 30 }
    }

    fn size() -> (size: WordSize) {
        WordSize { bits: 30 }
    }
}

/// A word of 31 bits, held in the low bits of a word of 32 bits.
#[derive(Clone, Copy, Debug, Default, PartialEq, Eq, Structural)]
pub struct U31(pub u32);

impl Word for U31 {
    open spec fn spec_size() -> WordSize {
        WordSize { bits: 31 }
    }

    fn size() -> (size: WordSize) {
        WordSize { bits: 31 }
    }
}

} // verus!
