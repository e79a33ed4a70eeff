use vstd::prelude::*;

verus! {

/// An error reported by the MFRC522 chip driver.
#[derive(Debug, Clone)]
pub enum ChipError {
    /// The chip saw no answer from a card in time.
    Timeout,
    /// Any other failure, described.
    Failure(String),
}

/// The mathematical value of a [`ChipError`].
pub enum ChipErrorView {
    Timeout,
    Failure(Seq<char>),
}

impl View for ChipError {
    type V = ChipErrorView;

    open spec fn view(&self) -> ChipErrorView {
        match self {
            ChipError::Timeout => ChipErrorView::Timeout,
            ChipError::Failure(m) => ChipErrorView::Failure(m@),
        }
    }
}

/// An error of the RC522 reader.
#[derive(Debug)]
pub enum Error {
    /// The SPI device could not be opened or configured; the message says why.
    IoError(String),
    /// The chip reported an error.
    RC522Error(ChipError),
}

/// The mathematical value of an [`Error`].
pub enum ErrorView {
    IoError(Seq<char>),
    RC522Error(ChipErrorView),
}

impl View for Error {
    type V = ErrorView;

    open spec fn view(&self) -> ErrorView {
        match self {
            Error::IoError(m) => ErrorView::IoError(m@),
            Error::RC522Error(e) => ErrorView::RC522Error(e@),
        }
    }
}

impl From<ChipError> for Error {
    fn from(error: ChipError) -> (r: Error) {
        Error::RC522Error(error)
    }
}

impl vstd::std_specs::convert::FromSpecImpl<ChipError> for Error {
    open spec fn obeys_from_spec() -> bool {
        true
    }

    open spec fn from_spec(v: ChipError) -> Error {
        Error::RC522Error(v)
    }
}

/// An operation of the chip driver that the reader asks its caller to run.
#[derive(Debug, Clone, Copy, PartialEq, Eq, Structural)]
pub enum ChipCommand {
    /// Run the chip's self test.
    SelfTest,
    /// Initialise the chip.
    Init,
    /// Look for a card in the idle state (REQA).
    NewCardPresent,
    /// Wake a halted card (WUPA), with the given number of attempts.
    WakeupA(u8),
    /// Read the serial number (UID) of the selected card.
    ReadCardSerial,
    /// Put the selected card into the halted state.
    HaltA,
}

/// What the chip driver answered to a [`ChipCommand`].
#[derive(Debug, Clone)]
pub enum ChipReply {
    /// The operation succeeded.
    Done,
    /// The serial number that `ReadCardSerial` read, as bytes.
    Serial(Vec<u8>),
    /// The operation failed.
    Failed(ChipError),
}

/// The mathematical value of a [`ChipReply`].
pub enum ChipReplyView {
    Done,
    Serial(Seq<u8>),
    Failed(ChipErrorView),
}

impl View for ChipReply {
    type V = ChipReplyView;

    open spec fn view(&self) -> ChipReplyView {
        match self {
            ChipReply::Done => ChipReplyView::Done,
            ChipReply::Serial(b) => ChipReplyView::Serial(b@),
            ChipReply::Failed(e) => ChipReplyView::Failed(e@),
        }
    }
}

/// Where a request to the reader stands after a reply of the chip.
#[derive(Debug)]
pub enum Outcome {
    /// Run this chip operation next and report its reply.
    Issue(ChipCommand),
    /// The chip passed its self test and is initialised.
    Initialized,
    /// No card answered.
    NoCard,
    /// A card answered; this is its serial number in lower-case hexadecimal.
    Tag(String),
    /// The request failed.
    Failed(Error),
}

/// The mathematical value of an [`Outcome`].
pub enum OutcomeView {
    Issue(ChipCommand),
    Initialized,
    NoCard,
    Tag(Seq<char>),
    Failed(ErrorView),
}

impl View for Outcome {
    type V = OutcomeView;

    open spec fn view(&self) -> OutcomeView {
        match self {
            Outcome::Issue(c) => OutcomeView::Issue(*c),
            Outcome::Initialized => OutcomeView::Initialized,
            Outcome::NoCard => OutcomeView::NoCard,
            Outcome::Tag(t) => OutcomeView::Tag(t@),
            Outcome::Failed(e) => OutcomeView::Failed(e@),
        }
    }
}

/// `Result<Option<String>, Error>` taken by its view.
pub open spec fn read_result_view(r: Result<Option<String>, Error>) -> Result<Option<Seq<char>>, ErrorView> {
    match r {
        Ok(Some(t)) => Ok(Some(t@)),
        Ok(None) => Ok(None),
        Err(e) => Err(e@),
    }
}

/// What a finished read means to a front end: a tag, no card, or the error.
pub open spec fn read_result_spec(o: OutcomeView) -> Result<Option<Seq<char>>, ErrorView> {
    match o {
        OutcomeView::Tag(t) => Ok(Some(t)),
        OutcomeView::Failed(e) => Err(e),
        _ => Ok(None),
    }
}

impl Outcome {
    /// The result of a read that ended with this outcome: the tag, the
    /// error, or no card for any other outcome.
    pub fn into_read_result(self) -> (r: Result<Option<String>, Error>)
        ensures
            read_result_view(r) == read_result_spec(self@),
    {
        match self {
            Outcome::Tag(t) => Ok(Some(t)),
            Outcome::Failed(e) => Err(e),
            _ => Ok(None),
        }
    }

    /// The result of an initialisation that ended with this outcome: the
    /// error, or success for any other outcome.
    pub fn into_init_result(self) -> (r: Result<(), Error>)
        ensures
            match self@ {
                OutcomeView::Failed(e) => r matches Err(f) && f@ == e,
                _ => r is Ok,
            },
    {
        match self {
            Outcome::Failed(e) => Err(e),
            _ => Ok(()),
        }
    }
}

/// The chip operation whose reply the reader waits for.
#[derive(Debug)]
enum Pending {
    Nothing,
    SelfTest,
    Init,
    Presence,
    Serial,
    Halt(Vec<u8>),
}

/// The mathematical value of the operation the reader waits for.
pub enum PendingView {
    Nothing,
    SelfTest,
    Init,
    Presence,
    Serial,
    Halt(Seq<u8>),
}

impl View for Pending {
    type V = PendingView;

    closed spec fn view(&self) -> PendingView {
        match self {
            Pending::Nothing => PendingView::Nothing,
            Pending::SelfTest => PendingView::SelfTest,
            Pending::Init => PendingView::Init,
            Pending::Presence => PendingView::Presence,
            Pending::Serial => PendingView::Serial,
            Pending::Halt(b) => PendingView::Halt(b@),
        }
    }
}

/// The hexadecimal digits, lower case.
pub open spec fn hex_digits() -> Seq<char> {
    seq!['0', '1', '2', '3', '4', '5', '6', '7', '8', '9', 'a', 'b', 'c', 'd', 'e', 'f']
}

/// The two lower-case hexadecimal digits of a byte.
pub open spec fn byte_hex(b: u8) -> Seq<char> {
    seq![hex_digits()[(b / 16) as int], hex_digits()[(b % 16) as int]]
}

/// A serial number written as lower-case hexadecimal, two digits per byte.
pub open spec fn uid_hex(bytes: Seq<u8>) -> Seq<char>
    decreases bytes.len(),
{
    if bytes.len() == 0 {
        Seq::empty()
    } else {
        uid_hex(bytes.drop_last()) + byte_hex(bytes.last())
    }
}

/// Whether the reader, waiting for the reply to `pending`, can take `reply`.
pub open spec fn accepts(pending: PendingView, reply: ChipReplyView) -> bool {
    match pending {
        PendingView::Nothing => false,
        PendingView::Serial => reply is Serial || reply is Failed,
        _ => reply is Done || reply is Failed,
    }
}

/// The failure that an error of the chip ends a request with.
pub open spec fn chip_failure(e: ChipErrorView) -> OutcomeView {
    OutcomeView::Failed(ErrorView::RC522Error(e))
}

/// One step of the reader: what it waits for next and the outcome, after
/// `reply` answered `pending`.
pub open spec fn reply_step(pending: PendingView, reply: ChipReplyView) -> (PendingView, OutcomeView) {
    match (pending, reply) {
        (PendingView::SelfTest, ChipReplyView::Done) => (PendingView::Init, OutcomeView::Issue(ChipCommand::Init)),
        (PendingView::Init, ChipReplyView::Done) => (PendingView::Nothing, OutcomeView::Initialized),
        (PendingView::Presence, ChipReplyView::Done) => (PendingView::Serial, OutcomeView::Issue(ChipCommand::ReadCardSerial)),
        (PendingView::Presence, ChipReplyView::Failed(ChipErrorView::Timeout)) => (PendingView::Nothing, OutcomeView::NoCard),
        (PendingView::Serial, ChipReplyView::Serial(bytes)) => (PendingView::Halt(bytes), OutcomeView::Issue(ChipCommand::HaltA)),
        (PendingView::Halt(bytes), ChipReplyView::Done) => (PendingView::Nothing, OutcomeView::Tag(uid_hex(bytes))),
        (_, ChipReplyView::Failed(e)) => (PendingView::Nothing, chip_failure(e)),
        (_, _) => (PendingView::Nothing, OutcomeView::NoCard),
    }
}

/// The mathematical value of an [`RC522RfidController`].
pub struct ReaderView {
    pub dev: Seq<char>,
    pub pending: PendingView,
}

/// An RC522 card reader on an SPI device. It decides which operation of
/// the chip driver runs next and what the replies mean; its caller runs the
/// operations on the chip.
pub struct RC522RfidController {
    dev: String,
    pending: Pending,
}

impl View for RC522RfidController {
    type V = ReaderView;

    closed spec fn view(&self) -> ReaderView {
        ReaderView { dev: self.dev@, pending: self.pending@ }
    }
}

/// `format!("{:02x}", b)`: the byte in lower-case hexadecimal, padded with a
/// zero to two digits.
#[verifier::external_body]
fn hex_pair(b: u8) -> (s: String)
    ensures
        s@ == byte_hex(b),
{
    format!("{:02x}", b)
}

/// The serial number `bytes` as lower-case hexadecimal, two digits per byte.
pub fn uid_to_hex(bytes: &[u8]) -> (s: String)
    ensures
        s@ == uid_hex(bytes@),
{
    let mut s = String::new();
    let mut i: usize = 0;
    while i < bytes.len()
        invariant
            i <= bytes.len(),
            s@ == uid_hex(bytes@.take(i as int)),
        decreases bytes.len() - i,
    {
        let pair = hex_pair(bytes[i]);
        s.append(pair.as_str());
        assert(bytes@.take(i + 1).drop_last() =~= bytes@.take(i as int));
        i = i + 1;
    }
    assert(bytes@.take(bytes.len() as int) =~= bytes@);
    s
}

impl RC522RfidController {
    /// A reader on the SPI device at path `dev`, waiting for nothing.
    pub fn new(dev: &str) -> (r: RC522RfidController)
        ensures
            r@.dev == dev@,
            r@.pending == PendingView::Nothing,
    {
        RC522RfidController { dev: dev.to_string(), pending: Pending::Nothing }
    }

    /// The path of the SPI device.
    pub fn device(&self) -> (d: &str)
        ensures
            d@ == self@.dev,
    {
        self.dev.as_str()
    }

    /// Starts the initialisation: the chip runs its self test first.
    pub fn init(&mut self) -> (c: ChipCommand)
        ensures
            c == ChipCommand::SelfTest,
            final(self)@ == (ReaderView { pending: PendingView::SelfTest, ..old(self)@ }),
    {
        self.pending = Pending::SelfTest;
        ChipCommand::SelfTest
    }

    /// Releases the reader; there is nothing to release.
    pub fn cleanup(&mut self) -> (r: Result<(), Error>)
        ensures
            r is Ok,
            final(self)@ == old(self)@,
    {
        Ok(())
    }

    /// Starts reading the serial number of a card in the idle state: the
    /// chip looks for a new card first.
    pub fn read_id_from_idle_picc(&mut self) -> (c: ChipCommand)
        ensures
            c == ChipCommand::NewCardPresent,
            final(self)@ == (ReaderView { pending: PendingView::Presence, ..old(self)@ }),
    {
        self.pending = Pending::Presence;
        ChipCommand::NewCardPresent
    }

    /// Starts reading the serial number of a card that was halted: the chip
    /// wakes it first, with two attempts.
    pub fn read_if_from_halted_picc(&mut self) -> (c: ChipCommand)
        ensures
            c == ChipCommand::WakeupA(2),
            final(self)@ == (ReaderView { pending: PendingView::Presence, ..old(self)@ }),
    {
        self.pending = Pending::Presence;
        ChipCommand::WakeupA(2)
    }

    /// Whether the reader waits for a reply of the shape of `reply`.
    pub fn accepts_reply(&self, reply: &ChipReply) -> (b: bool)
        ensures
            b == accepts(self@.pending, reply@),
    {
        match (&self.pending, reply) {
            (Pending::Nothing, _) => false,
            (Pending::Serial, ChipReply::Serial(_)) => true,
            (Pending::Serial, ChipReply::Failed(_)) => true,
            (Pending::Serial, ChipReply::Done) => false,
            (_, ChipReply::Serial(_)) => false,
            (_, _) => true,
        }
    }

    /// Takes the chip's reply to the operation the reader asked for last,
    /// and says what comes next.
    pub fn on_reply(&mut self, reply: ChipReply) -> (o: Outcome)
        requires
            accepts(old(self)@.pending, reply@),
        ensures
            final(self)@.dev == old(self)@.dev,
            (final(self)@.pending, o@) == reply_step(old(self)@.pending, reply@),
    {
        let mut pending = Pending::Nothing;
        std::mem::swap(&mut pending, &mut self.pending);
        match reply {
            ChipReply::Failed(e) => {
                match (&pending, &e) {
                    (Pending::Presence, ChipError::Timeout) => Outcome::NoCard,
                    (_, _) => Outcome::Failed(Error::RC522Error(e)),
                }
            },
            ChipReply::Serial(bytes) => {
                self.pending = Pending::Halt(bytes);
                Outcome::Issue(ChipCommand::HaltA)
            },
            ChipReply::Done => {
                match pending {
                    Pending::SelfTest => {
                        self.pending = Pending::Init;
                        Outcome::Issue(ChipCommand::Init)
                    },
                    Pending::Init => Outcome::Initialized,
                    Pending::Presence => {
                        self.pending = Pending::Serial;
                        Outcome::Issue(ChipCommand::ReadCardSerial)
                    },
                    Pending::Halt(bytes) => Outcome::Tag(uid_to_hex(bytes.as_slice())),
                    _ => Outcome::NoCard,
                }
            },
        }
    }
}

/// A card reader that front ends poll for cards.
pub trait RfidController {
    /// Tests and initialises the reader.
    fn init(&mut self) -> Result<(), Error>;

    /// Releases the reader.
    fn cleanup(&mut self) -> Result<(), Error>;

    /// Reads the identifier of a card in the idle state, if one answers.
    fn read_id_from_idle_picc(&mut self) -> Result<Option<String>, Error>;

    /// Reads the identifier of a card that was halted, if one answers.
    fn read_if_from_halted_picc(&mut self) -> Result<Option<String>, Error>;
}

/// A serial number of `n` bytes is written with `2 * n` digits.
pub proof fn lemma_uid_hex_len(bytes: Seq<u8>)
    ensures
        uid_hex(bytes).len() == 2 * bytes.len(),
    decreases bytes.len(),
{
    if bytes.len() > 0 {
        lemma_uid_hex_len(bytes.drop_last());
    }
}

/// Two cards with different serial numbers are reported with different
/// identifiers.
pub proof fn lemma_uid_hex_injective(a: Seq<u8>, b: Seq<u8>)
    requires
        uid_hex(a) == uid_hex(b),
    ensures
        a == b,
    decreases a.len(),
{
    lemma_uid_hex_len(a);
    lemma_uid_hex_len(b);
    if a.len() > 0 {
        let n = uid_hex(a).len();
        let ha = uid_hex(a);
        assert(ha == uid_hex(a.drop_last()) + byte_hex(a.last()));
        assert(uid_hex(b) == uid_hex(b.drop_last()) + byte_hex(b.last()));
        lemma_uid_hex_len(a.drop_last());
        lemma_uid_hex_len(b.drop_last());
        assert(ha.subrange(0, n - 2) =~= uid_hex(a.drop_last()));
        assert(uid_hex(b).subrange(0, n - 2) =~= uid_hex(b.drop_last()));
        assert(ha[n - 2] == byte_hex(a.last())[0]);
        assert(ha[n - 1] == byte_hex(a.last())[1]);
        assert(uid_hex(b)[n - 2] == byte_hex(b.last())[0]);
        assert(uid_hex(b)[n - 1] == byte_hex(b.last())[1]);
        let x = a.last();
        let y = b.last();
        assert(x / 16 == y / 16 && x % 16 == y % 16) by {
            assert(x / 16 < 16 && y / 16 < 16);
        }
        assert(x == y);
        lemma_uid_hex_injective(a.drop_last(), b.drop_last());
        assert(a =~= a.drop_last().push(x));
        assert(b =~= b.drop_last().push(y));
    }
}

} // verus!

verus! {

/// Digit `2 * i` and `2 * i + 1` of the hexadecimal form of a serial are
/// the high and low digit of its byte `i`.
proof fn lemma_uid_hex_digits(bytes: Seq<u8>, i: int)
    requires
        0 <= i < bytes.len(),
    ensures
        uid_hex(bytes).len() == 2 * bytes.len(),
        uid_hex(bytes)[2 * i] == seq!['0', '1', '2', '3', '4', '5', '6', '7', '8', '9', 'a', 'b', 'c', 'd', 'e', 'f'][(bytes[i] / 16) as int],
        uid_hex(bytes)[2 * i + 1] == seq!['0', '1', '2', '3', '4', '5', '6', '7', '8', '9', 'a', 'b', 'c', 'd', 'e', 'f'][(bytes[i] % 16) as int],
    decreases bytes.len(),
{
    lemma_uid_hex_len(bytes);
    lemma_uid_hex_len(bytes.drop_last());
    if i < bytes.len() - 1 {
        lemma_uid_hex_digits(bytes.drop_last(), i);
        assert(bytes.drop_last()[i] == bytes[i]);
    }
}

/// After a card was halted, the reader reports the whole serial number it
/// read: two lower-case hexadecimal digits for every byte, high digit
/// first, in the order of the bytes.
pub proof fn lemma_tag_spells_the_whole_serial(bytes: Seq<u8>)
    ensures
        ({
            let (next, outcome) = reply_step(PendingView::Halt(bytes), ChipReplyView::Done);
            &&& next is Nothing
            &&& outcome matches OutcomeView::Tag(t)
            &&& t.len() == 2 * bytes.len()
            &&& forall|i: int| 0 <= i < bytes.len() ==> {
                &&& #[trigger] t[2 * i] == seq!['0', '1', '2', '3', '4', '5', '6', '7', '8', '9', 'a', 'b', 'c', 'd', 'e', 'f'][(bytes[i] / 16) as int]
                &&& t[2 * i + 1] == seq!['0', '1', '2', '3', '4', '5', '6', '7', '8', '9', 'a', 'b', 'c', 'd', 'e', 'f'][(bytes[i] % 16) as int]
            }
        }),
{
    lemma_uid_hex_len(bytes);
    assert forall|i: int| 0 <= i < bytes.len() implies {
        &&& #[trigger] uid_hex(bytes)[2 * i] == seq!['0', '1', '2', '3', '4', '5', '6', '7', '8', '9', 'a', 'b', 'c', 'd', 'e', 'f'][(bytes[i] / 16) as int]
        &&& uid_hex(bytes)[2 * i + 1] == seq!['0', '1', '2', '3', '4', '5', '6', '7', '8', '9', 'a', 'b', 'c', 'd', 'e', 'f'][(bytes[i] % 16) as int]
    } by {
        lemma_uid_hex_digits(bytes, i);
    }
}

/// Cards with different serial numbers are reported with different tags:
/// the reported tag determines the serial that was read.
pub proof fn lemma_tags_tell_serials_apart(a: Seq<u8>, b: Seq<u8>)
    requires
        reply_step(PendingView::Halt(a), ChipReplyView::Done).1 == reply_step(PendingView::Halt(b), ChipReplyView::Done).1,
    ensures
        a == b,
{
    lemma_uid_hex_injective(a, b);
}

/// A tag is reported only when a halt succeeds, and the serial that is
/// halted and then reported is the one the chip read; a read that probes,
/// reads a serial `b` and halts reports a tag of `2 * b.len()` digits.
pub proof fn lemma_read_sequence_reports_the_serial_read(b: Seq<u8>, pending: PendingView, reply: ChipReplyView)
    ensures
        reply_step(pending, reply).1 is Tag ==> pending is Halt && reply is Done,
        reply_step(PendingView::Serial, ChipReplyView::Serial(b)).0 == PendingView::Halt(b),
        ({
            let (p1, o1) = reply_step(PendingView::Presence, ChipReplyView::Done);
            let (p2, o2) = reply_step(p1, ChipReplyView::Serial(b));
            let (p3, o3) = reply_step(p2, ChipReplyView::Done);
            &&& o1 == OutcomeView::Issue(ChipCommand::ReadCardSerial)
            &&& o2 == OutcomeView::Issue(ChipCommand::HaltA)
            &&& o3 matches OutcomeView::Tag(t) && t.len() == 2 * b.len()
            &&& p3 is Nothing
        }),
{
    lemma_uid_hex_len(b);
}

} // verus!
