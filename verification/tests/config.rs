use stm32_spi::config::{
    compute_baud_rate, compute_frequency, frequency_reachable, BitOrder, Config, Hertz, Mode,
    Phase, Polarity, Pull,
};
use stm32_spi::regs::{Br, Cpha, Cpol, Lsbfirst, Registers};
use stm32_spi::program::{Instr, Op};
use stm32_spi::spi::Spi;
use stm32_spi::version::Version;

const VERSIONS: [Version; 6] =
    [Version::V1, Version::F1, Version::V2, Version::V3, Version::V4, Version::V5];

fn achieved(kernel_clock: u32, freq: u32) -> u32 {
    let br = compute_baud_rate(Hertz(kernel_clock), Hertz(freq));
    compute_frequency(Hertz(kernel_clock), br).0
}

fn apply_all(regs: &mut Registers, program: &[Instr]) -> usize {
    let mut accesses = 0;
    for instr in program {
        if let Instr::Do(Op::Modify(_, patch)) = instr {
            regs.apply(*patch);
            accesses += 1;
        }
    }
    accesses
}

#[test]
fn baud_rate_of_eight_to_one() {
    let br = compute_baud_rate(Hertz(8_000_000), Hertz(1_000_000));
    assert_eq!(br, Br::Div8);
    assert_eq!(compute_frequency(Hertz(8_000_000), br), Hertz(1_000_000));
}

#[test]
fn baud_rate_table_boundaries() {
    let k = 1_000_000u32;
    let cases: [(u32, Br); 16] = [
        (1, Br::Div2),
        (2, Br::Div2),
        (3, Br::Div4),
        (5, Br::Div4),
        (6, Br::Div8),
        (11, Br::Div8),
        (12, Br::Div16),
        (23, Br::Div16),
        (24, Br::Div32),
        (39, Br::Div32),
        (40, Br::Div64),
        (95, Br::Div64),
        (96, Br::Div128),
        (191, Br::Div128),
        (192, Br::Div256),
        (100_000, Br::Div256),
    ];
    for (ratio, expected) in cases {
        // the largest request with this ratio
        let freq = k / ratio;
        assert_eq!(k / freq, ratio);
        assert_eq!(compute_baud_rate(Hertz(k), Hertz(freq)), expected, "ratio {}", ratio);
    }
}

#[test]
fn baud_rate_of_the_input_clock_itself() {
    assert_eq!(compute_baud_rate(Hertz(48_000_000), Hertz(48_000_000)), Br::Div2);
    assert_eq!(achieved(48_000_000, 48_000_000), 24_000_000);
}

#[test]
fn frequency_is_input_clock_over_divisor() {
    let k = Hertz(80_000_000);
    assert_eq!(compute_frequency(k, Br::Div2), Hertz(40_000_000));
    assert_eq!(compute_frequency(k, Br::Div4), Hertz(20_000_000));
    assert_eq!(compute_frequency(k, Br::Div8), Hertz(10_000_000));
    assert_eq!(compute_frequency(k, Br::Div16), Hertz(5_000_000));
    assert_eq!(compute_frequency(k, Br::Div32), Hertz(2_500_000));
    assert_eq!(compute_frequency(k, Br::Div64), Hertz(1_250_000));
    assert_eq!(compute_frequency(k, Br::Div128), Hertz(625_000));
    assert_eq!(compute_frequency(k, Br::Div256), Hertz(312_500));
    assert_eq!(compute_frequency(Hertz(7), Br::Div4), Hertz(1));
    assert_eq!(compute_frequency(Hertz(0), Br::Div2), Hertz(0));
}

#[test]
fn prescaler_bits_and_divisors() {
    let all = [
        (Br::Div2, 0u8, 2u16),
        (Br::Div4, 1, 4),
        (Br::Div8, 2, 8),
        (Br::Div16, 3, 16),
        (Br::Div32, 4, 32),
        (Br::Div64, 5, 64),
        (Br::Div128, 6, 128),
        (Br::Div256, 7, 256),
    ];
    for (br, bits, divisor) in all {
        assert_eq!(br.to_bits(), bits);
        assert_eq!(Br::from_bits(bits), br);
        assert_eq!(br.divisor(), divisor);
    }
}

#[test]
fn over_request_is_not_reachable() {
    assert!(!frequency_reachable(Hertz(1_000_000), Hertz(2_000_000)));
    assert!(!frequency_reachable(Hertz(1_000_000), Hertz(1_000_001)));
    assert!(!frequency_reachable(Hertz(1_000_000), Hertz(0)));
    assert!(frequency_reachable(Hertz(1_000_000), Hertz(1_000_000)));
    assert!(frequency_reachable(Hertz(1_000_000), Hertz(1)));
}

#[test]
fn asking_for_more_never_yields_less() {
    let clocks = [1u32, 7, 100, 255, 256, 1000, 8_000_000, 48_000_000, u32::MAX];
    for k in clocks {
        let mut requests: Vec<u32> = vec![1, 2, 3, 5, 6, 11, 12, 23, 24, 39, 40, 95, 96, 191, 192];
        requests.extend([k / 300, k / 192, k / 96, k / 40, k / 24, k / 12, k / 6, k / 3, k / 2, k]);
        requests.retain(|f| *f >= 1 && *f <= k);
        requests.sort();
        for pair in requests.windows(2) {
            assert!(
                achieved(k, pair[0]) <= achieved(k, pair[1]),
                "clock {} requests {} and {}",
                k,
                pair[0],
                pair[1]
            );
        }
    }
}

#[test]
fn default_config_is_mode_0_msb_first_1_mhz() {
    let config = Config::default();
    assert_eq!(config.mode, Mode::mode_0());
    assert_eq!(config.mode.polarity, Polarity::IdleLow);
    assert_eq!(config.mode.phase, Phase::CaptureOnFirstTransition);
    assert_eq!(config.bit_order, BitOrder::MsbFirst);
    assert_eq!(config.frequency, Hertz(1_000_000));
}

#[test]
fn the_four_modes() {
    assert_eq!(
        Mode::mode_0(),
        Mode { polarity: Polarity::IdleLow, phase: Phase::CaptureOnFirstTransition }
    );
    assert_eq!(
        Mode::mode_1(),
        Mode { polarity: Polarity::IdleLow, phase: Phase::CaptureOnSecondTransition }
    );
    assert_eq!(
        Mode::mode_2(),
        Mode { polarity: Polarity::IdleHigh, phase: Phase::CaptureOnFirstTransition }
    );
    assert_eq!(
        Mode::mode_3(),
        Mode { polarity: Polarity::IdleHigh, phase: Phase::CaptureOnSecondTransition }
    );
}

#[test]
fn raw_fields_of_a_config() {
    let mut config = Config::default();
    assert_eq!(config.raw_phase(), Cpha::FirstEdge);
    assert_eq!(config.raw_polarity(), Cpol::IdleLow);
    assert_eq!(config.raw_byte_order(), Lsbfirst::MsbFirst);
    assert_eq!(config.sck_pull_mode(), Pull::Down);
    config.mode = Mode::mode_3();
    config.bit_order = BitOrder::LsbFirst;
    assert_eq!(config.raw_phase(), Cpha::SecondEdge);
    assert_eq!(config.raw_polarity(), Cpol::IdleHigh);
    assert_eq!(config.raw_byte_order(), Lsbfirst::LsbFirst);
    assert_eq!(config.sck_pull_mode(), Pull::Up);
}

#[test]
fn config_round_trip_of_mode_and_bit_order() {
    let modes = [Mode::mode_0(), Mode::mode_1(), Mode::mode_2(), Mode::mode_3()];
    let orders = [BitOrder::LsbFirst, BitOrder::MsbFirst];
    for version in VERSIONS {
        for mode in modes {
            for bit_order in orders {
                for freq in [1u32, 333_333, 1_000_000, 8_000_000] {
                    let kernel_clock = Hertz(8_000_000);
                    let (mut spi, init) =
                        Spi::new_blocking(version, kernel_clock, Config::default());
                    let mut regs = Registers::cleared();
                    apply_all(&mut regs, &init);
                    let config = Config { mode, bit_order, frequency: Hertz(freq) };
                    let program = spi.set_config(&config);
                    apply_all(&mut regs, &program);
                    let back = spi.get_current_config(&regs);
                    assert_eq!(back.mode, mode);
                    assert_eq!(back.bit_order, bit_order);
                    assert_eq!(back.frequency, Hertz(achieved(8_000_000, freq)));
                }
            }
        }
    }
}

#[test]
fn config_round_trip_is_exact_on_a_divisor() {
    for version in VERSIONS {
        for divisor in [2u32, 4, 8, 16, 32, 64, 128, 256] {
            let kernel_clock = Hertz(64_000_000);
            let config = Config {
                mode: Mode::mode_2(),
                bit_order: BitOrder::LsbFirst,
                frequency: Hertz(64_000_000 / divisor),
            };
            let (spi, init) = Spi::new(version, kernel_clock, config);
            let mut regs = Registers::cleared();
            apply_all(&mut regs, &init);
            assert_eq!(spi.get_current_config(&regs), config);
        }
    }
}

#[test]
fn reading_a_config_from_cleared_registers() {
    let (spi, _) = Spi::new_blocking(Version::V2, Hertz(16_000_000), Config::default());
    let config = spi.get_current_config(&Registers::cleared());
    assert_eq!(config.mode, Mode::mode_0());
    assert_eq!(config.bit_order, BitOrder::MsbFirst);
    assert_eq!(config.frequency, Hertz(8_000_000));
}
