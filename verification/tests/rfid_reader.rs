use yotibox::rfid::{uid_to_hex, ChipCommand, ChipError, ChipReply, Error, Outcome, RC522RfidController};

#[test]
fn hex_of_uid_is_lower_case_two_digits_per_byte() {
    assert_eq!(uid_to_hex(&[0x04, 0xa1, 0xff, 0x00]), "04a1ff00");
    assert_eq!(uid_to_hex(&[]), "");
    assert_eq!(uid_to_hex(&[0x0b]), "0b");
}

#[test]
fn error_from_chip_error() {
    let e: Error = Error::from(ChipError::Timeout);
    assert!(matches!(e, Error::RC522Error(ChipError::Timeout)));
}

#[test]
fn device_path_is_kept() {
    let r = RC522RfidController::new("/dev/spidev0.0");
    assert_eq!(r.device(), "/dev/spidev0.0");
}

#[test]
fn init_runs_self_test_then_init() {
    let mut r = RC522RfidController::new("/dev/spidev0.0");
    assert_eq!(r.init(), ChipCommand::SelfTest);
    assert!(r.accepts_reply(&ChipReply::Done));
    assert!(matches!(r.on_reply(ChipReply::Done), Outcome::Issue(ChipCommand::Init)));
    assert!(matches!(r.on_reply(ChipReply::Done), Outcome::Initialized));
    assert!(!r.accepts_reply(&ChipReply::Done));
}

#[test]
fn failed_self_test_fails_init() {
    let mut r = RC522RfidController::new("/dev/spidev0.0");
    r.init();
    let o = r.on_reply(ChipReply::Failed(ChipError::Failure(String::from("selftest"))));
    assert!(matches!(o, Outcome::Failed(Error::RC522Error(ChipError::Failure(ref m))) if m == "selftest"));
}

#[test]
fn idle_read_of_a_card() {
    let mut r = RC522RfidController::new("/dev/spidev0.0");
    assert_eq!(r.read_id_from_idle_picc(), ChipCommand::NewCardPresent);
    assert!(matches!(r.on_reply(ChipReply::Done), Outcome::Issue(ChipCommand::ReadCardSerial)));
    assert!(!r.accepts_reply(&ChipReply::Done));
    assert!(r.accepts_reply(&ChipReply::Serial(vec![1])));
    assert!(matches!(r.on_reply(ChipReply::Serial(vec![0xde, 0xad, 0xbe, 0xef])), Outcome::Issue(ChipCommand::HaltA)));
    let o = r.on_reply(ChipReply::Done);
    assert!(matches!(o, Outcome::Tag(ref t) if t == "deadbeef"));
}

#[test]
fn halted_read_wakes_the_card_twice() {
    let mut r = RC522RfidController::new("/dev/spidev0.0");
    assert_eq!(r.read_if_from_halted_picc(), ChipCommand::WakeupA(2));
}

#[test]
fn timeout_while_probing_is_no_card() {
    let mut r = RC522RfidController::new("/dev/spidev0.0");
    r.read_id_from_idle_picc();
    assert!(matches!(r.on_reply(ChipReply::Failed(ChipError::Timeout)), Outcome::NoCard));
}

#[test]
fn other_error_while_probing_fails() {
    let mut r = RC522RfidController::new("/dev/spidev0.0");
    r.read_if_from_halted_picc();
    let o = r.on_reply(ChipReply::Failed(ChipError::Failure(String::from("collision"))));
    assert!(matches!(o, Outcome::Failed(Error::RC522Error(ChipError::Failure(_)))));
}

#[test]
fn timeout_while_reading_serial_fails() {
    let mut r = RC522RfidController::new("/dev/spidev0.0");
    r.read_id_from_idle_picc();
    r.on_reply(ChipReply::Done);
    let o = r.on_reply(ChipReply::Failed(ChipError::Timeout));
    assert!(matches!(o, Outcome::Failed(Error::RC522Error(ChipError::Timeout))));
}

#[test]
fn failed_halt_fails_the_read() {
    let mut r = RC522RfidController::new("/dev/spidev0.0");
    r.read_id_from_idle_picc();
    r.on_reply(ChipReply::Done);
    r.on_reply(ChipReply::Serial(vec![1, 2]));
    let o = r.on_reply(ChipReply::Failed(ChipError::Timeout));
    assert!(matches!(o, Outcome::Failed(Error::RC522Error(ChipError::Timeout))));
}

#[test]
fn cleanup_succeeds() {
    let mut r = RC522RfidController::new("/dev/spidev0.0");
    assert!(r.cleanup().is_ok());
}

#[test]
fn different_uids_give_different_ids() {
    assert_ne!(uid_to_hex(&[0x01, 0x23]), uid_to_hex(&[0x12, 0x03]));
}

#[test]
fn outcome_to_read_result() {
    assert!(matches!(Outcome::Tag(String::from("ab")).into_read_result(), Ok(Some(ref t)) if t == "ab"));
    assert!(matches!(Outcome::NoCard.into_read_result(), Ok(None)));
    assert!(matches!(
        Outcome::Failed(Error::RC522Error(ChipError::Timeout)).into_read_result(),
        Err(Error::RC522Error(ChipError::Timeout))
    ));
}

#[test]
fn outcome_to_init_result() {
    assert!(Outcome::Initialized.into_init_result().is_ok());
    assert!(matches!(
        Outcome::Failed(Error::IoError(String::from("spi"))).into_init_result(),
        Err(Error::IoError(ref m)) if m == "spi"
    ));
}
