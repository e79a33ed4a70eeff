use yotibox::rc522_registers::{
    fifo_bit_length, fifo_read_count, read_frame, write_frame, CardError, RC522RfidController,
    MODE_AUTH, MODE_TRANSREC,
};

#[test]
fn write_frame_shifts_address_and_clears_top_bit() {
    assert_eq!(write_frame(0x01, 0x0F), vec![0x02, 0x0F]);
    assert_eq!(write_frame(0x3F, 0xAA), vec![0x7E, 0xAA]);
    assert_eq!(write_frame(0x7F, 0x00), vec![0x7E, 0x00]);
}

#[test]
fn read_frame_sets_top_bit() {
    assert_eq!(read_frame(0x04), vec![0x88, 0x00]);
    assert_eq!(read_frame(0x00), vec![0x80, 0x00]);
}

#[test]
fn fifo_bits_formula() {
    assert_eq!(fifo_bit_length(2, 0), 16);
    assert_eq!(fifo_bit_length(2, 3), 11);
    assert_eq!(fifo_bit_length(0, 0), 0);
}

#[test]
fn fifo_count_is_clamped() {
    assert_eq!(fifo_read_count(0), 1);
    assert_eq!(fifo_read_count(5), 5);
    assert_eq!(fifo_read_count(16), 16);
    assert_eq!(fifo_read_count(40), 16);
}

#[test]
fn registers_read_as_zero() {
    let r = RC522RfidController::new("/dev/spidev0.0");
    assert_eq!(r.dev_read(0x04), 0);
}

#[test]
fn card_write_rejects_other_commands() {
    let r = RC522RfidController::new("/dev/spidev0.0");
    assert_eq!(r.card_write(0x42, vec![1, 2]), Err(CardError::InvalidCommand(0x42)));
}

#[test]
fn card_write_times_out_with_nothing_read() {
    let r = RC522RfidController::new("/dev/spidev0.0");
    assert_eq!(r.card_write(MODE_TRANSREC, vec![0x26]), Ok((vec![], 0)));
    assert_eq!(r.card_write(MODE_AUTH, vec![]), Ok((vec![], 0)));
}

#[test]
fn request_finds_no_card() {
    let r = RC522RfidController::new("/dev/spidev0.0");
    assert_eq!(r.request(), None);
}

#[test]
fn register_helpers_and_cleanup() {
    let mut r = RC522RfidController::new("/dev/spidev0.0");
    r.reset();
    r.init2();
    r.set_antenna(false);
    r.set_bitmask(0x0A, 0x80);
    r.clear_bitmask(0x04, 0x80);
    r.dev_write(0x01, 0x00);
    assert_eq!(r.cleanup(), Ok(()));
}
