use stm32_spi::error::{Error, ErrorKind};
use stm32_spi::status::{
    check_error_flags, flush_rx_fifo, spin_until_rx_ready, spin_until_tx_ready, Condition,
    Status,
};
use stm32_spi::version::Version;

const VERSIONS: [Version; 6] =
    [Version::V1, Version::F1, Version::V2, Version::V3, Version::V4, Version::V5];

fn quiet() -> Status {
    Status {
        overrun: false,
        frame_error: false,
        mode_fault: false,
        crc_error: false,
        tx_ready: false,
        rx_ready: false,
        busy: false,
        transfer_complete: false,
        tx_fifo_level: 0,
    }
}

#[test]
fn no_flag_no_error() {
    for version in VERSIONS {
        assert_eq!(check_error_flags(version, quiet()), Ok(()));
        let busy = Status {
            tx_ready: true,
            rx_ready: true,
            busy: true,
            transfer_complete: true,
            tx_fifo_level: 3,
            ..quiet()
        };
        assert_eq!(check_error_flags(version, busy), Ok(()));
    }
}

#[test]
fn each_flag_gives_its_error() {
    for version in VERSIONS {
        assert_eq!(
            check_error_flags(version, Status { overrun: true, ..quiet() }),
            Err(Error::Overrun)
        );
        assert_eq!(
            check_error_flags(version, Status { mode_fault: true, ..quiet() }),
            Err(Error::ModeFault)
        );
        assert_eq!(
            check_error_flags(version, Status { crc_error: true, ..quiet() }),
            Err(Error::Crc)
        );
    }
    for version in [Version::V1, Version::V2, Version::V3, Version::V4, Version::V5] {
        assert_eq!(
            check_error_flags(version, Status { frame_error: true, ..quiet() }),
            Err(Error::Framing)
        );
    }
}

#[test]
fn legacy_revision_has_no_framing_error() {
    assert_eq!(check_error_flags(Version::F1, Status { frame_error: true, ..quiet() }), Ok(()));
    assert_eq!(
        check_error_flags(
            Version::F1,
            Status { frame_error: true, mode_fault: true, crc_error: true, ..quiet() }
        ),
        Err(Error::ModeFault)
    );
}

#[test]
fn first_flag_in_order_wins() {
    let all = Status {
        overrun: true,
        frame_error: true,
        mode_fault: true,
        crc_error: true,
        ..quiet()
    };
    assert_eq!(check_error_flags(Version::V2, all), Err(Error::Overrun));
    assert_eq!(
        check_error_flags(Version::V2, Status { overrun: false, ..all }),
        Err(Error::Framing)
    );
    assert_eq!(
        check_error_flags(Version::V2, Status { overrun: false, frame_error: false, ..all }),
        Err(Error::ModeFault)
    );
    assert_eq!(
        check_error_flags(
            Version::V2,
            Status { overrun: false, frame_error: false, mode_fault: false, ..all }
        ),
        Err(Error::Crc)
    );
}

#[test]
fn waiting_for_the_transmit_side() {
    for version in VERSIONS {
        assert_eq!(spin_until_tx_ready(version, quiet()), None);
        assert_eq!(spin_until_tx_ready(version, Status { rx_ready: true, ..quiet() }), None);
        assert_eq!(
            spin_until_tx_ready(version, Status { tx_ready: true, ..quiet() }),
            Some(Ok(()))
        );
        assert_eq!(
            spin_until_tx_ready(version, Status { tx_ready: true, overrun: true, ..quiet() }),
            Some(Err(Error::Overrun))
        );
        assert_eq!(
            spin_until_tx_ready(version, Status { crc_error: true, ..quiet() }),
            Some(Err(Error::Crc))
        );
    }
}

#[test]
fn waiting_for_the_receive_side() {
    for version in VERSIONS {
        assert_eq!(spin_until_rx_ready(version, quiet()), None);
        assert_eq!(spin_until_rx_ready(version, Status { tx_ready: true, ..quiet() }), None);
        assert_eq!(
            spin_until_rx_ready(version, Status { rx_ready: true, ..quiet() }),
            Some(Ok(()))
        );
        assert_eq!(
            spin_until_rx_ready(version, Status { rx_ready: true, mode_fault: true, ..quiet() }),
            Some(Err(Error::ModeFault))
        );
    }
}

#[test]
fn draining_goes_on_while_a_word_is_held() {
    for version in [Version::V1, Version::F1, Version::V2] {
        assert!(flush_rx_fifo(version, Status { rx_ready: true, ..quiet() }));
        assert!(flush_rx_fifo(version, Status { rx_ready: true, overrun: true, ..quiet() }));
        assert!(!flush_rx_fifo(version, quiet()));
        assert!(!flush_rx_fifo(version, Status { tx_ready: true, ..quiet() }));
    }
}

#[test]
fn the_third_generation_is_never_drained() {
    for version in [Version::V3, Version::V4, Version::V5] {
        assert!(!flush_rx_fifo(version, Status { rx_ready: true, ..quiet() }));
        assert!(!flush_rx_fifo(version, Status { rx_ready: true, overrun: true, ..quiet() }));
        assert!(!flush_rx_fifo(version, quiet()));
    }
}

#[test]
fn conditions_on_the_status() {
    assert!(!Condition::TransferComplete.holds(quiet()));
    assert!(Condition::TransferComplete.holds(Status { transfer_complete: true, ..quiet() }));
    assert!(Condition::NotBusy.holds(quiet()));
    assert!(!Condition::NotBusy.holds(Status { busy: true, ..quiet() }));
    assert!(Condition::TxFifoEmpty.holds(quiet()));
    assert!(!Condition::TxFifoEmpty.holds(Status { tx_fifo_level: 1, ..quiet() }));
    assert!(!Condition::TxFifoEmpty.holds(Status { tx_fifo_level: 3, ..quiet() }));
}

#[test]
fn kinds_of_errors() {
    assert_eq!(Error::Framing.kind(), ErrorKind::FrameFormat);
    assert_eq!(Error::Crc.kind(), ErrorKind::Other);
    assert_eq!(Error::ModeFault.kind(), ErrorKind::ModeFault);
    assert_eq!(Error::Overrun.kind(), ErrorKind::Overrun);
}
