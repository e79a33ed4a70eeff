use vstd::prelude::*;

verus! {

/// Command register value: no action.
pub const MODE_IDLE: u8 = 0x00;
/// Command register value: transmit and receive.
pub const MODE_TRANSREC: u8 = 0x0C;
/// Command register value: soft reset.
pub const MODE_RESET: u8 = 0x0F;
/// Command register value: MIFARE authentication.
pub const MODE_AUTH: u8 = 0x0E;

/// Address of the register that drives the antenna pins.
pub const REG_TX_CONTROL: u8 = 0x14;

/// The most bytes read back from the FIFO after a transceive.
pub const LENGTH: u8 = 16;

/// Raspberry Pi pin of the reset line.
pub const RPI_PIN_RST: u8 = 22;
/// Raspberry Pi pin of the interrupt line.
pub const RPI_PIN_IRQ: u8 = 18;

/// An error of a card command.
#[derive(Debug, Clone, Copy, PartialEq, Eq, Structural)]
pub enum CardError {
    /// The command is neither authentication nor transceive.
    InvalidCommand(u8),
    /// The chip flagged an error or a timer interrupt during the command.
    Communication,
}

/// The address byte of an SPI frame that writes register `address`: bits 1
/// to 6 hold the low six bits of the address, bit 7 is clear.
pub open spec fn write_address_byte(address: u8) -> u8 {
    ((address % 64) * 2) as u8
}

/// The address byte of an SPI frame that reads register `address`: as for a
/// write, with bit 7 set.
pub open spec fn read_address_byte(address: u8) -> u8 {
    (write_address_byte(address) + 128) as u8
}

/// The number of valid bits in the FIFO after a transceive, from the FIFO
/// level `n` and the number `last_bits` of valid bits in its last byte
/// (0 meaning the whole byte).
pub open spec fn fifo_bits(n: u8, last_bits: u8) -> int {
    if last_bits != 0 {
        (n - 1) * 8 + last_bits
    } else {
        n * 8
    }
}

/// The number of bytes read back from a FIFO level `n`: at least one, at
/// most [`LENGTH`].
pub open spec fn fifo_read_count_spec(n: u8) -> u8 {
    if n == 0 {
        1
    } else if n > LENGTH {
        LENGTH
    } else {
        n
    }
}

/// Whether `command` is one that [`RC522RfidController::card_write`] runs.
pub open spec fn is_card_command(command: u8) -> bool {
    command == MODE_AUTH || command == MODE_TRANSREC
}

/// The mathematical value of an [`RC522RfidController`].
pub struct RegisterReaderView {
    pub dev: Seq<char>,
    pub authed: bool,
    pub pin_ce: u8,
    pub antenna_gain: u8,
}

/// The SPI frame that writes `value` to register `address`.
pub fn write_frame(address: u8, value: u8) -> (frame: Vec<u8>)
    ensures
        frame@ == seq![write_address_byte(address), value],
{
    let first = (address << 1u8) & 0x7Eu8;
    assert(((address << 1u8) & 0x7Eu8) == (address % 64) * 2) by (bit_vector);
    vec![first, value]
}

/// The SPI frame that reads register `address`.
pub fn read_frame(address: u8) -> (frame: Vec<u8>)
    ensures
        frame@ == seq![read_address_byte(address), 0u8],
{
    let first = ((address << 1u8) & 0x7Eu8) | 0x80u8;
    assert((((address << 1u8) & 0x7Eu8) | 0x80u8) == (address % 64) * 2 + 128) by (bit_vector);
    vec![first, 0]
}

/// The number of valid bits in the FIFO, from its level and the valid bits
/// of its last byte.
pub fn fifo_bit_length(n: u8, last_bits: u8) -> (bits: u32)
    requires
        last_bits != 0 ==> n >= 1,
    ensures
        bits == fifo_bits(n, last_bits),
{
    if last_bits != 0 {
        ((n as u32) - 1) * 8 + (last_bits as u32)
    } else {
        (n as u32) * 8
    }
}

/// The number of bytes to read back from a FIFO of level `n`.
pub fn fifo_read_count(n: u8) -> (count: u8)
    ensures
        count == fifo_read_count_spec(n),
{
    let mut n = n;
    if n == 0 {
        n = 1;
    }
    if n > LENGTH {
        n = LENGTH;
    }
    n
}

/// An MFRC522 reader addressed register by register over SPI. The frames
/// are formed but not transferred, and every register reads as zero.
pub struct RC522RfidController<'a> {
    dev: &'a str,
    authed: bool,
    pin_ce: u8,
    antenna_gain: u8,
}

impl<'a> View for RC522RfidController<'a> {
    type V = RegisterReaderView;

    closed spec fn view(&self) -> RegisterReaderView {
        RegisterReaderView {
            dev: self.dev@,
            authed: self.authed,
            pin_ce: self.pin_ce,
            antenna_gain: self.antenna_gain,
        }
    }
}

impl<'a> RC522RfidController<'a> {
    /// No chip-enable pin is configured, so no GPIO pin is driven around a
    /// transfer.
    #[verifier::type_invariant]
    closed spec fn no_chip_enable_pin(self) -> bool {
        self.pin_ce == 0
    }

    /// A reader on the SPI device `dev`, not authenticated, with no
    /// chip-enable pin and an antenna gain of 4.
    pub fn new(dev: &'a str) -> (r: RC522RfidController<'a>)
        ensures
            r@ == (RegisterReaderView { dev: dev@, authed: false, pin_ce: 0, antenna_gain: 0x04 }),
    {
        RC522RfidController { dev, authed: false, pin_ce: 0, antenna_gain: 0x04 }
    }

    /// Writes `value` to register `address`.
    pub fn dev_write(&self, address: u8, value: u8) {
        proof {
            use_type_invariant(self);
        }
        let _data = write_frame(address, value);
    }

    /// Reads register `address`; the value is always zero.
    pub fn dev_read(&self, address: u8) -> (value: u8)
        ensures
            value == 0,
    {
        proof {
            use_type_invariant(self);
        }
        let _data = read_frame(address);
        0
    }

    /// Sets the bits of `mask` in register `address`.
    pub fn set_bitmask(&self, address: u8, mask: u8) {
        let current = self.dev_read(address);
        self.dev_write(address, current | mask);
    }

    /// Clears the bits of `mask` in register `address`.
    pub fn clear_bitmask(&self, address: u8, mask: u8) {
        let current = self.dev_read(address);
        self.dev_write(address, current & (!mask));
    }

    /// Switches the antenna drivers on or off.
    pub fn set_antenna(&self, state: bool) {
        if state {
            let current = self.dev_read(REG_TX_CONTROL);
            if !(current & 0x03) != 0 {
                self.set_bitmask(REG_TX_CONTROL, 0x03);
            }
        } else {
            self.clear_bitmask(REG_TX_CONTROL, 0x03);
        }
    }

    /// Soft-resets the chip and forgets any authentication.
    pub fn reset(&mut self)
        ensures
            final(self)@ == (RegisterReaderView { authed: false, ..old(self)@ }),
    {
        proof {
            use_type_invariant(&*self);
        }
        self.authed = false;
        self.dev_write(0x01, MODE_RESET);
    }

    /// Resets the chip and programs its timer, modulation, receiver gain
    /// and antenna.
    pub fn init2(&mut self)
        ensures
            final(self)@ == (RegisterReaderView { authed: false, ..old(self)@ }),
    {
        self.reset();
        self.dev_write(0x2A, 0x8D);
        self.dev_write(0x2B, 0x3E);
        self.dev_write(0x2D, 30);
        self.dev_write(0x2C, 0);
        self.dev_write(0x15, 0x40);
        self.dev_write(0x11, 0x3D);
        self.dev_write(0x26, self.antenna_gain << 4u8);
        self.set_antenna(true);
    }

    /// Runs the card command `command` (authentication or transceive) with
    /// `data` in the FIFO and returns the bytes read back with their number
    /// of valid bits.
    pub fn card_write(&self, command: u8, data: Vec<u8>) -> (r: Result<(Vec<u8>, u32), CardError>)
        ensures
            is_card_command(command) ==> (r matches Ok((back, bits)) && back@ == Seq::<u8>::empty() && bits == 0),
            !is_card_command(command) ==> r == Err::<(Vec<u8>, u32), CardError>(CardError::InvalidCommand(command)),
    {
        let mut back_data = Vec::<u8>::new();
        let mut back_length: u32 = 0;
        let mut error: Option<CardError> = None;
        let irq: u8;
        let irq_wait: u8;
        let mut last_bits: u8 = !0u8;
        let mut n: u8 = 0;

        if command == MODE_AUTH {
            irq = 0x12;
            irq_wait = 0x10;
        } else if command == MODE_TRANSREC {
            irq = 0x77;
            irq_wait = 0x30;
        } else {
            return Err(CardError::InvalidCommand(command));
        }

        self.dev_write(0x02, irq | 0x80);
        self.clear_bitmask(0x04, 0x80);
        self.set_bitmask(0x0A, 0x80);
        self.dev_write(0x01, MODE_IDLE);

        let mut k: usize = 0;
        while k < data.len()
            invariant
                k <= data.len(),
            decreases data.len() - k,
        {
            self.dev_write(0x09, data[k]);
            k = k + 1;
        }

        self.dev_write(0x01, command);

        if command == MODE_TRANSREC {
            self.set_bitmask(0x0D, 0x80);
        }

        let mut i: i32 = 2000;
        loop
            invariant_except_break
                0 < i <= 2000,
            ensures
                i == 0,
                n == 0,
            decreases i,
        {
            n = self.dev_read(0x04);
            i -= 1;
            assert(n == 0 ==> (!(n & 0x01u8) != 0u8 && !(n & irq_wait) != 0u8)) by (bit_vector);
            if !((i != 0) && !(n & 0x01) != 0 && !(n & irq_wait) != 0) {
                break;
            }
        }

        self.clear_bitmask(0x0D, 0x80);

        if i != 0 {
            if (self.dev_read(0x06) & 0x1B) == 0x00 {
                error = None;

                if n & irq & 0x01 != 0 {
                    error = Some(CardError::Communication);
                }

                if command == MODE_TRANSREC {
                    n = self.dev_read(0x0A);
                    last_bits = self.dev_read(0x0C) & 0x07;
                    assert(n == 0);
                    assert(last_bits == 0) by {
                        assert((0u8 & 0x07u8) == 0u8) by (bit_vector);
                    }
                    back_length = fifo_bit_length(n, last_bits);
                    n = fifo_read_count(n);
                    let mut j: u8 = 0;
                    while j < n
                        invariant
                            j <= n,
                        decreases n - j,
                    {
                        back_data.push(self.dev_read(0x09));
                        j = j + 1;
                    }
                }
            } else {
                error = Some(CardError::Communication);
            }
        }

        match error {
            None => Ok((back_data, back_length)),
            Some(err) => Err(err),
        }
    }

    /// Asks for a card (REQA) and returns its tag type when one answers with
    /// a 16-bit ATQA; no card ever answers, since registers read as zero.
    pub fn request(&self) -> (r: Option<u32>)
        ensures
            r is None,
    {
        let req_mode: u8 = 0x26;
        self.dev_write(0x0D, 0x07);
        let res = self.card_write(MODE_TRANSREC, vec![req_mode]);
        match res {
            Err(_) => None,
            Ok((_back_data, back_bits)) => {
                if back_bits == 0x10 {
                    Some(back_bits)
                } else {
                    None
                }
            },
        }
    }
}

/// A card reader that is initialised, polled for tags and cleaned up. The
/// register-level [`RC522RfidController`] offers only the clean-up: it has
/// no way to set its pins up or to read a card's identifier.
pub trait RfidController {
    fn init(&mut self) -> Result<(), CardError>;

    fn cleanup(&mut self) -> Result<(), CardError>;

    fn poll_for_tag(&mut self) -> Result<Option<String>, CardError>;
}

impl<'a> RC522RfidController<'a> {
    /// Brings the chip back to its initial configuration.
    pub fn cleanup(&mut self) -> (r: Result<(), CardError>)
        ensures
            r is Ok,
            final(self)@ == (RegisterReaderView { authed: false, ..old(self)@ }),
    {
        self.init2();
        Ok(())
    }
}

} // verus!
