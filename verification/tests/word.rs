use stm32_spi::regs::{Dff, Frxth};
use stm32_spi::version::{Family, Version};
use stm32_spi::word::{
    Access, Word, WordConfig, WordSize, U4, U5, U6, U7, U9, U10, U11, U12, U13, U14, U15, U17, U18, U19, U20, U21, U22, U23, U24, U25, U26, U27, U28, U29, U30, U31,
};

const VERSIONS: [Version; 6] =
    [Version::V1, Version::F1, Version::V2, Version::V3, Version::V4, Version::V5];

#[test]
fn families_of_the_revisions() {
    assert_eq!(Version::V1.family(), Family::Gen1);
    assert_eq!(Version::F1.family(), Family::Gen1);
    assert_eq!(Version::V2.family(), Family::Gen2);
    assert_eq!(Version::V3.family(), Family::Gen3);
    assert_eq!(Version::V4.family(), Family::Gen3);
    assert_eq!(Version::V5.family(), Family::Gen3);
    for version in VERSIONS {
        assert_eq!(version.is_gen3(), version.family() == Family::Gen3);
        assert_eq!(version.has_frame_error(), version != Version::F1);
    }
}

#[test]
fn word_sizes_from_4_to_32_bits() {
    for bits in 0u8..=255 {
        let size = WordSize::new(bits);
        if (4..=32).contains(&bits) {
            assert_eq!(size, Some(WordSize { bits }));
        } else {
            assert_eq!(size, None);
        }
    }
}

#[test]
fn first_generation_moves_8_and_16_bits_only() {
    for version in [Version::V1, Version::F1] {
        for bits in 0u8..=40 {
            assert_eq!(WordSize { bits }.supported(version), bits == 8 || bits == 16);
        }
        assert_eq!(WordSize { bits: 8 }.config(version), WordConfig::Dff(Dff::Bits8));
        assert_eq!(WordSize { bits: 16 }.config(version), WordConfig::Dff(Dff::Bits16));
    }
}

#[test]
fn second_generation_moves_4_to_16_bits() {
    for bits in 0u8..=40 {
        assert_eq!(WordSize { bits }.supported(Version::V2), (4..=16).contains(&bits));
    }
    for bits in 4u8..=8 {
        assert_eq!(
            WordSize { bits }.config(Version::V2),
            WordConfig::DsFrxth(bits - 1, Frxth::Quarter)
        );
    }
    for bits in 9u8..=16 {
        assert_eq!(
            WordSize { bits }.config(Version::V2),
            WordConfig::DsFrxth(bits - 1, Frxth::Half)
        );
    }
    assert_eq!(WordSize { bits: 4 }.config(Version::V2), WordConfig::DsFrxth(0b0011, Frxth::Quarter));
    assert_eq!(WordSize { bits: 16 }.config(Version::V2), WordConfig::DsFrxth(0b1111, Frxth::Half));
}

#[test]
fn third_generation_moves_4_to_32_bits() {
    for version in [Version::V3, Version::V4, Version::V5] {
        for bits in 0u8..=40 {
            assert_eq!(WordSize { bits }.supported(version), (4..=32).contains(&bits));
        }
        for bits in 4u8..=32 {
            assert_eq!(WordSize { bits }.config(version), WordConfig::Dsize(bits - 1));
        }
    }
}

#[test]
fn each_width_has_its_own_encoding() {
    for version in VERSIONS {
        let sizes: Vec<WordSize> = (4u8..=32)
            .map(|bits| WordSize { bits })
            .filter(|size| size.supported(version))
            .collect();
        for a in &sizes {
            for b in &sizes {
                assert_eq!(a.config(version) == b.config(version), a == b);
            }
        }
    }
}

#[test]
fn sizes_of_the_primitive_words() {
    assert_eq!(<u8 as Word>::size(), WordSize { bits: 8 });
    assert_eq!(<u16 as Word>::size(), WordSize { bits: 16 });
    assert_eq!(<u32 as Word>::size(), WordSize { bits: 32 });
}

#[test]
fn narrowest_access_for_each_size() {
    for bits in 4u8..=8 {
        assert_eq!(WordSize { bits }.access(), Access::Byte);
    }
    for bits in 9u8..=16 {
        assert_eq!(WordSize { bits }.access(), Access::HalfWord);
    }
    for bits in 17u8..=32 {
        assert_eq!(WordSize { bits }.access(), Access::Word);
    }
    assert_eq!(Access::Byte.bytes(), 1);
    assert_eq!(Access::HalfWord.bytes(), 2);
    assert_eq!(Access::Word.bytes(), 4);
    assert_eq!(<u8 as Word>::size().access().bytes(), std::mem::size_of::<u8>());
    assert_eq!(<u16 as Word>::size().access().bytes(), std::mem::size_of::<u16>());
    assert_eq!(<u32 as Word>::size().access().bytes(), std::mem::size_of::<u32>());
}

fn sized<W: Word>() -> u8 {
    let size = W::size();
    // a word is moved with one access of the width of its type
    assert_eq!(size.access().bytes(), std::mem::size_of::<W>());
    assert_eq!(WordSize::new(size.bits), Some(size));
    size.bits
}

#[test]
fn a_word_type_for_every_size() {
    assert_eq!(sized::<u8>(), 8);
    assert_eq!(sized::<u16>(), 16);
    assert_eq!(sized::<u32>(), 32);
    assert_eq!(sized::<U4>(), 4);
    assert_eq!(sized::<U5>(), 5);
    assert_eq!(sized::<U6>(), 6);
    assert_eq!(sized::<U7>(), 7);
    assert_eq!(sized::<U9>(), 9);
    assert_eq!(sized::<U10>(), 10);
    assert_eq!(sized::<U11>(), 11);
    assert_eq!(sized::<U12>(), 12);
    assert_eq!(sized::<U13>(), 13);
    assert_eq!(sized::<U14>(), 14);
    assert_eq!(sized::<U15>(), 15);
    assert_eq!(sized::<U17>(), 17);
    assert_eq!(sized::<U18>(), 18);
    assert_eq!(sized::<U19>(), 19);
    assert_eq!(sized::<U20>(), 20);
    assert_eq!(sized::<U21>(), 21);
    assert_eq!(sized::<U22>(), 22);
    assert_eq!(sized::<U23>(), 23);
    assert_eq!(sized::<U24>(), 24);
    assert_eq!(sized::<U25>(), 25);
    assert_eq!(sized::<U26>(), 26);
    assert_eq!(sized::<U27>(), 27);
    assert_eq!(sized::<U28>(), 28);
    assert_eq!(sized::<U29>(), 29);
    assert_eq!(sized::<U30>(), 30);
    assert_eq!(sized::<U31>(), 31);
}

#[test]
fn words_of_odd_sizes_start_at_zero() {
    assert_eq!(U5::default(), U5(0));
    assert_eq!(U12::default(), U12(0));
    assert_eq!(U31::default(), U31(0));
    assert!(<U12 as Word>::size().supported(Version::V2));
    assert!(!<U12 as Word>::size().supported(Version::V1));
    assert!(<U24 as Word>::size().supported(Version::V5));
    assert!(!<U24 as Word>::size().supported(Version::V2));
}
