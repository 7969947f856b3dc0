//! CAT (Computer Aided Transceiver) protocol: ASCII requests and replies, each
//! terminated by `;`, exchanged strictly one transaction at a time.
//!
//! The serial link itself is driven by the caller: this module decides what
//! is written, when a reply is complete, and whether it is acceptable.
use vstd::prelude::*;
use vstd::utf8::valid_utf8;
use vstd::utf8::is_leading_byte_width_1;
use vstd::arithmetic::div_mod::lemma_div_denominator;

verus! {

/// Number of decimal digits of a frequency on the wire.
pub const FREQUENCY_DIGITS: usize = 11;

/// Largest frequency, in hertz, that eleven digits can carry.
pub const MAX_FREQUENCY: u64 = 99_999_999_999;

/// Shortest request the protocol accepts: a two-letter mnemonic and `;`.
pub const MIN_REQUEST_LEN: usize = 3;

/// The byte that ends every request and every reply.
pub const TERMINATOR: u8 = 0x3b;

/// Why a CAT transaction failed. The session stays usable after any of them.
#[derive(Debug, Clone, Copy, PartialEq, Eq, Structural)]
pub enum ProtocolError {
    /// The request is shorter than a mnemonic and its terminator.
    MalformedRequest,
    /// The link accepted fewer (or more) bytes than the request holds.
    ShortWrite { expected: usize, written: usize },
    /// The link reported a failure.
    Io,
    /// No terminator arrived within the read timeout.
    Timeout,
    /// The reply is not text, is too short, does not echo the request's
    /// mnemonic, or does not have the shape the command expects.
    UnexpectedResponse,
}

// ---------------------------------------------------------------------------
// Decimal digits
// ---------------------------------------------------------------------------

pub open spec fn pow10(n: nat) -> nat
    decreases n,
{
    if n == 0 {
        1
    } else {
        10 * pow10((n - 1) as nat)
    }
}

pub open spec fn is_digit(b: u8) -> bool {
    0x30 <= b <= 0x39
}

pub open spec fn all_digits(s: Seq<u8>) -> bool {
    forall|i: int| 0 <= i < s.len() ==> #[trigger] is_digit(s[i])
}

/// The number that a sequence of decimal digits denotes, most significant first.
pub open spec fn digits_value(s: Seq<u8>) -> nat
    decreases s.len(),
{
    if s.len() == 0 {
        0
    } else {
        digits_value(s.drop_last()) * 10 + (s.last() - 0x30) as nat
    }
}

/// The `i`-th of the `n` zero-padded decimal digits of `v`, most significant first.
pub open spec fn digit_at(v: nat, n: nat, i: int) -> u8 {
    (0x30 + (v / pow10((n - 1 - i) as nat)) % 10) as u8
}

/// `v` written with exactly `n` decimal digits, zero-padded on the left.
pub open spec fn padded_digits(v: nat, n: nat) -> Seq<u8> {
    Seq::new(n, |i: int| digit_at(v, n, i))
}

/// `"FA"` followed by `digits` and `;`: the frequency set request, and the
/// shape of the reply to a frequency query.
pub open spec fn fa_frame(digits: Seq<u8>) -> Seq<u8> {
    seq![0x46u8, 0x41u8] + digits + seq![TERMINATOR]
}

/// The frequency query `"FA;"`.
pub open spec fn get_frequency_command() -> Seq<u8> {
    seq![0x46u8, 0x41u8, TERMINATOR]
}

/// The request that tunes the radio to `hz`.
pub open spec fn set_frequency_command(hz: nat) -> Seq<u8> {
    fa_frame(padded_digits(hz, FREQUENCY_DIGITS as nat))
}

/// A well-formed reply to the frequency query: `"FA"`, eleven digits, `;`.
pub open spec fn is_frequency_reply(r: Seq<u8>) -> bool {
    &&& r.len() == FREQUENCY_DIGITS + 3
    &&& r[0] == 0x46u8
    &&& r[1] == 0x41u8
    &&& r[r.len() - 1] == TERMINATOR
    &&& all_digits(reply_digits(r))
}

/// The digits of a frequency reply.
pub open spec fn reply_digits(r: Seq<u8>) -> Seq<u8> {
    r.subrange(2, r.len() - 1)
}

// ---------------------------------------------------------------------------
// Transaction rules
// ---------------------------------------------------------------------------

/// A reply is accepted for a request when it is well-formed UTF-8, holds at
/// least two bytes, and its first two bytes echo the request's mnemonic.
pub open spec fn response_accepted(request: Seq<u8>, response: Seq<u8>) -> bool {
    &&& valid_utf8(response)
    &&& response.len() >= 2
    &&& response[0] == request[0]
    &&& response[1] == request[1]
}

pub proof fn lemma_pow10_positive(n: nat)
    ensures
        pow10(n) >= 1,
    decreases n,
{
    if n > 0 {
        lemma_pow10_positive((n - 1) as nat);
    }
}

/// Reading the zero-padded digits of a number gives the number back.
pub proof fn lemma_padded_digits_value(v: nat, n: nat)
    requires
        v < pow10(n),
    ensures
        all_digits(padded_digits(v, n)),
        digits_value(padded_digits(v, n)) == v,
    decreases n,
{
    let s = padded_digits(v, n);
    assert(all_digits(s)) by {
        assert forall|i: int| 0 <= i < s.len() implies #[trigger] is_digit(s[i]) by {
            let q = v / pow10((n - 1 - i) as nat);
            assert(0 <= q % 10 < 10);
        }
    }
    if n > 0 {
        let m = (n - 1) as nat;
        let w = v / 10;
        lemma_pow10_positive(m);
        let p = pow10(m);
        assert(w < p) by (nonlinear_arith)
            requires
                v < 10 * p,
                w == v / 10,
        ;
        lemma_padded_digits_value(w, m);
        assert(s.drop_last() =~= padded_digits(w, m)) by {
            assert forall|i: int| 0 <= i < m implies #[trigger] s.drop_last()[i] == padded_digits(
                w,
                m,
            )[i] by {
                let k = (m - 1 - i) as nat;
                lemma_pow10_positive(k);
                lemma_div_denominator(v as int, 10, pow10(k) as int);
                assert(pow10((n - 1 - i) as nat) == 10 * pow10(k));
            }
        }
        assert(pow10(0) == 1);
        assert(v / 1 == v);
        assert(s[n - 1] == digit_at(v, n, n - 1));
        assert(s.last() == (0x30 + v % 10) as u8);
        assert(w * 10 + v % 10 == v);
    }
}

/// Bytes below 0x80 are well-formed UTF-8.
pub proof fn lemma_ascii_is_utf8(s: Seq<u8>)
    requires
        forall|i: int| 0 <= i < s.len() ==> #[trigger] s[i] < 0x80,
    ensures
        valid_utf8(s),
    decreases s.len(),
{
    if s.len() > 0 {
        assert(is_leading_byte_width_1(s[0]));
        let rest = s.subrange(1, s.len() as int);
        assert forall|i: int| 0 <= i < rest.len() implies #[trigger] rest[i] < 0x80 by {
            assert(s[i + 1] < 0x80);
        }
        lemma_ascii_is_utf8(rest);
    }
}

/// Relies on `std::str::from_utf8`: it succeeds exactly when the bytes are
/// well-formed UTF-8.
#[verifier::external_body]
fn is_utf8(bytes: &[u8]) -> (r: bool)
    ensures
        r == valid_utf8(bytes@),
{
    std::str::from_utf8(bytes).is_ok()
}

pub proof fn lemma_pow10_monotone(a: nat, b: nat)
    requires
        a <= b,
    ensures
        pow10(a) <= pow10(b),
    decreases b - a,
{
    if a < b {
        lemma_pow10_monotone(a, (b - 1) as nat);
        lemma_pow10_positive((b - 1) as nat);
    }
}

/// Every frequency that the protocol can carry, written as eleven digits and
/// read back, is the frequency it started from.
pub proof fn render_parse_round_trip(hz: nat)
    requires
        hz <= MAX_FREQUENCY,
    ensures
        padded_digits(hz, FREQUENCY_DIGITS as nat).len() == FREQUENCY_DIGITS,
        all_digits(padded_digits(hz, FREQUENCY_DIGITS as nat)),
        digits_value(padded_digits(hz, FREQUENCY_DIGITS as nat)) == hz,
{
    reveal_with_fuel(pow10, 12);
    lemma_padded_digits_value(hz, FREQUENCY_DIGITS as nat);
}

/// A reply made of `"FA"`, eleven digits and `;` is a frequency reply whose
/// digits are those eleven, and the frequency query accepts it.
pub proof fn frequency_reply_shape(digits: Seq<u8>)
    requires
        digits.len() == FREQUENCY_DIGITS,
        all_digits(digits),
    ensures
        is_frequency_reply(fa_frame(digits)),
        reply_digits(fa_frame(digits)) == digits,
        response_accepted(get_frequency_command(), fa_frame(digits)),
{
    let r = fa_frame(digits);
    assert(reply_digits(r) =~= digits);
    assert forall|i: int| 0 <= i < r.len() implies #[trigger] r[i] < 0x80 by {
        if 2 <= i < r.len() - 1 {
            assert(is_digit(digits[i - 2]));
        }
    }
    lemma_ascii_is_utf8(r);
}

/// Checks that a request is long enough to be sent; nothing is written
/// otherwise.
pub fn validate_request(request: &[u8]) -> (r: Result<(), ProtocolError>)
    ensures
        r == (if request@.len() < MIN_REQUEST_LEN {
            Err(ProtocolError::MalformedRequest)
        } else {
            Ok(())
        }),
{
    if request.len() < MIN_REQUEST_LEN {
        Err(ProtocolError::MalformedRequest)
    } else {
        Ok(())
    }
}

/// Checks the byte count that the link reports after a request of
/// `expected` bytes was written.
pub fn check_written(expected: usize, written: usize) -> (r: Result<(), ProtocolError>)
    ensures
        r == (if written == expected {
            Ok(())
        } else {
            Err(ProtocolError::ShortWrite { expected, written })
        }),
{
    if written == expected {
        Ok(())
    } else {
        Err(ProtocolError::ShortWrite { expected, written })
    }
}

/// Checks a complete reply against the request that it answers.
pub fn check_response(request: &[u8], response: &[u8]) -> (r: Result<(), ProtocolError>)
    requires
        request@.len() >= MIN_REQUEST_LEN,
    ensures
        r == (if response_accepted(request@, response@) {
            Ok(())
        } else {
            Err(ProtocolError::UnexpectedResponse)
        }),
{
    if !is_utf8(response) || response.len() < 2 {
        return Err(ProtocolError::UnexpectedResponse);
    }
    if response[0] != request[0] || response[1] != request[1] {
        return Err(ProtocolError::UnexpectedResponse);
    }
    Ok(())
}

/// The frequency query, `"FA;"`.
pub fn get_frequency_request() -> (r: Vec<u8>)
    ensures
        r@ == get_frequency_command(),
{
    let r: Vec<u8> = vec![0x46u8, 0x41u8, TERMINATOR];
    assert(r@ =~= get_frequency_command());
    r
}

/// Writes `hz` as exactly eleven ASCII decimal digits, zero-padded.
pub fn render_frequency(hz: u64) -> (r: Vec<u8>)
    requires
        hz <= MAX_FREQUENCY,
    ensures
        r@ == padded_digits(hz as nat, FREQUENCY_DIGITS as nat),
{
    let ghost n = FREQUENCY_DIGITS as nat;
    let mut out: Vec<u8> = Vec::new();
    let mut divisor: u64 = 10_000_000_000;
    let mut i: usize = 0;
    proof {
        reveal_with_fuel(pow10, 11);
    }
    while i < FREQUENCY_DIGITS
        invariant
            n == FREQUENCY_DIGITS as nat,
            i <= FREQUENCY_DIGITS,
            i < FREQUENCY_DIGITS ==> divisor as nat == pow10((n - 1 - i) as nat),
            out@ =~= Seq::new(i as nat, |j: int| digit_at(hz as nat, n, j)),
        decreases FREQUENCY_DIGITS - i,
    {
        proof {
            lemma_pow10_positive((n - 1 - i) as nat);
        }
        let digit: u8 = ((hz / divisor) % 10) as u8;
        out.push(0x30u8 + digit);
        proof {
            let k = (n - 2 - i) as nat;
            if i + 1 < FREQUENCY_DIGITS {
                let x = (n - 1 - i) as nat;
                assert((x - 1) as nat == k);
                assert(pow10(x) == 10 * pow10(k));
                assert((10 * pow10(k)) / 10 == pow10(k)) by (nonlinear_arith);
            }
        }
        divisor = divisor / 10;
        i = i + 1;
    }
    out
}

/// The request that tunes the radio to `hz`: `"FA"`, eleven digits, `;`.
pub fn set_frequency_request(hz: u64) -> (r: Vec<u8>)
    requires
        hz <= MAX_FREQUENCY,
    ensures
        r@ == set_frequency_command(hz as nat),
        r@.len() == FREQUENCY_DIGITS + 3,
{
    let mut r: Vec<u8> = vec![0x46u8, 0x41u8];
    let mut digits = render_frequency(hz);
    r.append(&mut digits);
    r.push(TERMINATOR);
    assert(r@ =~= set_frequency_command(hz as nat));
    r
}

/// Reads exactly eleven ASCII decimal digits as a frequency in hertz.
pub fn parse_frequency(digits: &[u8]) -> (r: Option<u64>)
    ensures
        r == (if digits@.len() == FREQUENCY_DIGITS && all_digits(digits@) {
            Some(digits_value(digits@) as u64)
        } else {
            None
        }),
        r matches Some(hz) ==> hz <= MAX_FREQUENCY,
{
    if digits.len() != FREQUENCY_DIGITS {
        return None;
    }
    let mut acc: u64 = 0;
    let mut i: usize = 0;
    proof {
        reveal_with_fuel(pow10, 12);
    }
    while i < digits.len()
        invariant
            digits@.len() == FREQUENCY_DIGITS,
            i <= digits@.len(),
            all_digits(digits@.subrange(0, i as int)),
            acc as nat == digits_value(digits@.subrange(0, i as int)),
            acc < pow10(i as nat),
            pow10(FREQUENCY_DIGITS as nat) == 100_000_000_000,
        decreases digits@.len() - i,
    {
        let b = digits[i];
        if b < 0x30 || b > 0x39 {
            assert(!is_digit(digits@[i as int]));
            return None;
        }
        let ghost prev = digits@.subrange(0, i as int);
        let ghost next = digits@.subrange(0, i + 1);
        assert(next.drop_last() =~= prev);
        assert(all_digits(next)) by {
            assert forall|j: int| 0 <= j < next.len() implies #[trigger] is_digit(next[j]) by {
                if j < i {
                    assert(is_digit(prev[j]));
                }
            }
        }
        proof {
            lemma_pow10_monotone((i + 1) as nat, FREQUENCY_DIGITS as nat);
            assert(acc * 10 + (b - 0x30) < 10 * pow10(i as nat)) by (nonlinear_arith)
                requires
                    acc < pow10(i as nat),
                    b - 0x30 < 10,
            ;
        }
        acc = acc * 10 + (b - 0x30) as u64;
        i = i + 1;
    }
    assert(digits@.subrange(0, 11) =~= digits@);
    Some(acc)
}

/// Reads the frequency out of a complete reply to the frequency query.
pub fn frequency_from_reply(reply: &[u8]) -> (r: Result<u64, ProtocolError>)
    ensures
        r == (if is_frequency_reply(reply@) {
            Ok(digits_value(reply_digits(reply@)) as u64)
        } else {
            Err(ProtocolError::UnexpectedResponse)
        }),
{
    let request = get_frequency_request();
    if let Err(e) = check_response(request.as_slice(), reply) {
        proof {
            if is_frequency_reply(reply@) {
                assert(reply@ =~= fa_frame(reply_digits(reply@)));
                frequency_reply_shape(reply_digits(reply@));
            }
        }
        return Err(e);
    }
    if reply.len() != FREQUENCY_DIGITS + 3 || reply[reply.len() - 1] != TERMINATOR {
        return Err(ProtocolError::UnexpectedResponse);
    }
    let digits = &reply[2..reply.len() - 1];
    assert(digits@ =~= reply_digits(reply@));
    match parse_frequency(digits) {
        Some(hz) => Ok(hz),
        None => Err(ProtocolError::UnexpectedResponse),
    }
}

/// One outcome of reading a single byte from the link.
#[derive(Debug, Clone, Copy, PartialEq, Eq, Structural)]
pub enum ReadEvent {
    Byte(u8),
    TimedOut,
    Failed,
}

/// What the reader needs after an event.
#[derive(Debug, Clone, Copy, PartialEq, Eq, Structural)]
pub enum ReadStep {
    /// The terminator has not arrived: read another byte.
    Pending,
    /// The terminator arrived: the reply is complete.
    Complete,
    /// The read failed; the transaction is over.
    Failed(ProtocolError),
}

/// Accumulates a reply byte by byte until its terminator.
pub struct ResponseReader {
    received: Vec<u8>,
}

impl View for ResponseReader {
    type V = Seq<u8>;

    closed spec fn view(&self) -> Seq<u8> {
        self.received@
    }
}

impl ResponseReader {
    pub fn new() -> (r: ResponseReader)
        ensures
            r@ == Seq::<u8>::empty(),
    {
        ResponseReader { received: Vec::new() }
    }

    /// Takes one read outcome: a byte is kept, and the terminator completes
    /// the reply; a timeout or a link failure ends the transaction.
    pub fn feed(&mut self, event: ReadEvent) -> (r: ReadStep)
        ensures
            match event {
                ReadEvent::Byte(b) => {
                    &&& final(self)@ == old(self)@.push(b)
                    &&& r == (if b == TERMINATOR {
                        ReadStep::Complete
                    } else {
                        ReadStep::Pending
                    })
                },
                ReadEvent::TimedOut => {
                    &&& final(self)@ == old(self)@
                    &&& r == ReadStep::Failed(ProtocolError::Timeout)
                },
                ReadEvent::Failed => {
                    &&& final(self)@ == old(self)@
                    &&& r == ReadStep::Failed(ProtocolError::Io)
                },
            },
    {
        match event {
            ReadEvent::Byte(b) => {
                self.received.push(b);
                if b == TERMINATOR {
                    ReadStep::Complete
                } else {
                    ReadStep::Pending
                }
            },
            ReadEvent::TimedOut => ReadStep::Failed(ProtocolError::Timeout),
            ReadEvent::Failed => ReadStep::Failed(ProtocolError::Io),
        }
    }

    /// The bytes received so far.
    pub fn received(&self) -> (r: &[u8])
        ensures
            r@ == self@,
    {
        self.received.as_slice()
    }
}

// ---------------------------------------------------------------------------
// Transactions
// ---------------------------------------------------------------------------

/// Where a session stands in its transaction.
#[derive(Debug, Clone, Copy, PartialEq, Eq, Structural)]
pub enum Phase {
    /// No transaction is under way; a new request may begin.
    Idle,
    /// The request is to be written to the link.
    Writing,
    /// The reply is being read, byte by byte.
    Reading,
}

/// What the session asks of the link next.
#[derive(Debug, Clone, Copy, PartialEq, Eq, Structural)]
pub enum LinkAction {
    /// Write the session's request, all at once.
    Write,
    /// Read one byte.
    ReadByte,
    /// The transaction succeeded; the reply, if one was awaited, is the
    /// session's reply.
    Done,
    /// The transaction failed.
    Failed(ProtocolError),
}

/// What the link did with the last action.
#[derive(Debug, Clone, Copy, PartialEq, Eq, Structural)]
pub enum LinkEvent {
    /// The write completed and reported this many bytes written.
    Written(usize),
    /// The write failed.
    WriteFailed,
    /// The outcome of reading one byte.
    Read(ReadEvent),
}

/// The events that can follow the action asked for in a phase.
pub open spec fn event_fits(phase: Phase, event: LinkEvent) -> bool {
    match event {
        LinkEvent::Written(_) => phase == Phase::Writing,
        LinkEvent::WriteFailed => phase == Phase::Writing,
        LinkEvent::Read(_) => phase == Phase::Reading,
    }
}

/// After a request of `expected` bytes was written: a short write ends the
/// transaction; otherwise the reply is read, or, for a command that gets
/// none, the transaction succeeds.
pub open spec fn after_write(expected: nat, written: usize, awaits_reply: bool) -> (Phase, LinkAction) {
    if written != expected {
        (Phase::Idle, LinkAction::Failed(ProtocolError::ShortWrite { expected: expected as usize, written }))
    } else if awaits_reply {
        (Phase::Reading, LinkAction::ReadByte)
    } else {
        (Phase::Idle, LinkAction::Done)
    }
}

/// After one read while `received` holds the reply so far: the terminator
/// ends the transaction with the reply checked against the request.
pub open spec fn after_read(request: Seq<u8>, received: Seq<u8>, event: ReadEvent) -> (Phase, LinkAction) {
    match event {
        ReadEvent::Byte(b) => if b == TERMINATOR {
            (
                Phase::Idle,
                if response_accepted(request, received.push(b)) {
                    LinkAction::Done
                } else {
                    LinkAction::Failed(ProtocolError::UnexpectedResponse)
                },
            )
        } else {
            (Phase::Reading, LinkAction::ReadByte)
        },
        ReadEvent::TimedOut => (Phase::Idle, LinkAction::Failed(ProtocolError::Timeout)),
        ReadEvent::Failed => (Phase::Idle, LinkAction::Failed(ProtocolError::Io)),
    }
}

/// A CAT session: one transaction at a time, each a request written whole,
/// then, where the command gets one, a reply read up to its terminator.
/// The caller performs each action on the link and hands back what
/// happened.
pub struct CatSession {
    phase: Phase,
    request: Vec<u8>,
    awaits_reply: bool,
    reader: ResponseReader,
}

impl CatSession {
    pub closed spec fn phase(&self) -> Phase {
        self.phase
    }

    pub closed spec fn request_bytes(&self) -> Seq<u8> {
        self.request@
    }

    pub closed spec fn awaits_reply(&self) -> bool {
        self.awaits_reply
    }

    pub closed spec fn received(&self) -> Seq<u8> {
        self.reader@
    }

    pub open spec fn wf(&self) -> bool {
        self.phase() != Phase::Idle ==> self.request_bytes().len() >= MIN_REQUEST_LEN
    }

    /// An idle session.
    pub fn new() -> (r: CatSession)
        ensures
            r.phase() == Phase::Idle,
            r.request_bytes() == Seq::<u8>::empty(),
            r.received() == Seq::<u8>::empty(),
            r.wf(),
    {
        CatSession {
            phase: Phase::Idle,
            request: Vec::new(),
            awaits_reply: false,
            reader: ResponseReader::new(),
        }
    }

    pub fn is_idle(&self) -> (r: bool)
        ensures
            r == (self.phase() == Phase::Idle),
    {
        match self.phase {
            Phase::Idle => true,
            _ => false,
        }
    }

    /// The request of the current or last transaction.
    pub fn request(&self) -> (r: &[u8])
        ensures
            r@ == self.request_bytes(),
    {
        self.request.as_slice()
    }

    /// The reply received in the current or last transaction.
    pub fn reply(&self) -> (r: &[u8])
        ensures
            r@ == self.received(),
    {
        self.reader.received()
    }

    /// Starts a transaction. Only an idle session takes a new request, so
    /// no request is written before the previous transaction is over. A
    /// request too short to hold a command ends at once, before any I/O.
    pub fn begin(&mut self, request: Vec<u8>, awaits_reply: bool) -> (r: LinkAction)
        requires
            old(self).phase() == Phase::Idle,
        ensures
            final(self).wf(),
            final(self).request_bytes() == request@,
            final(self).awaits_reply() == awaits_reply,
            final(self).received() == Seq::<u8>::empty(),
            request@.len() < MIN_REQUEST_LEN ==> r == LinkAction::Failed(
                ProtocolError::MalformedRequest,
            ) && final(self).phase() == Phase::Idle,
            request@.len() >= MIN_REQUEST_LEN ==> r == LinkAction::Write && final(self).phase()
                == Phase::Writing,
    {
        self.reader = ResponseReader::new();
        self.awaits_reply = awaits_reply;
        let checked = validate_request(request.as_slice());
        self.request = request;
        match checked {
            Err(e) => LinkAction::Failed(e),
            Ok(()) => {
                self.phase = Phase::Writing;
                LinkAction::Write
            },
        }
    }

    /// Takes what the link did with the last action, and returns the next.
    pub fn step(&mut self, event: LinkEvent) -> (r: LinkAction)
        requires
            old(self).wf(),
            event_fits(old(self).phase(), event),
        ensures
            final(self).wf(),
            final(self).request_bytes() == old(self).request_bytes(),
            final(self).awaits_reply() == old(self).awaits_reply(),
            match event {
                LinkEvent::Written(n) => {
                    &&& (final(self).phase(), r) == after_write(
                        old(self).request_bytes().len(),
                        n,
                        old(self).awaits_reply(),
                    )
                    &&& final(self).received() == old(self).received()
                },
                LinkEvent::WriteFailed => {
                    &&& final(self).phase() == Phase::Idle
                    &&& r == LinkAction::Failed(ProtocolError::Io)
                    &&& final(self).received() == old(self).received()
                },
                LinkEvent::Read(e) => {
                    &&& (final(self).phase(), r) == after_read(
                        old(self).request_bytes(),
                        old(self).received(),
                        e,
                    )
                    &&& final(self).received() == match e {
                        ReadEvent::Byte(b) => old(self).received().push(b),
                        _ => old(self).received(),
                    }
                },
            },
    {
        match event {
            LinkEvent::Written(n) => match check_written(self.request.len(), n) {
                Err(e) => {
                    self.phase = Phase::Idle;
                    LinkAction::Failed(e)
                },
                Ok(()) => {
                    if self.awaits_reply {
                        self.phase = Phase::Reading;
                        LinkAction::ReadByte
                    } else {
                        self.phase = Phase::Idle;
                        LinkAction::Done
                    }
                },
            },
            LinkEvent::WriteFailed => {
                self.phase = Phase::Idle;
                LinkAction::Failed(ProtocolError::Io)
            },
            LinkEvent::Read(e) => match self.reader.feed(e) {
                ReadStep::Pending => LinkAction::ReadByte,
                ReadStep::Complete => {
                    self.phase = Phase::Idle;
                    match check_response(self.request.as_slice(), self.reader.received()) {
                        Ok(()) => LinkAction::Done,
                        Err(err) => LinkAction::Failed(err),
                    }
                },
                ReadStep::Failed(err) => {
                    self.phase = Phase::Idle;
                    LinkAction::Failed(err)
                },
            },
        }
    }
}

/// A frequency query answered with `"FA"`, eleven digits and `;` reads on
/// up to the terminator and then succeeds, with a reply from which
/// `frequency_from_reply` takes the frequency those digits denote.
pub proof fn frequency_query_succeeds(digits: Seq<u8>)
    requires
        digits.len() == FREQUENCY_DIGITS,
        all_digits(digits),
    ensures
        ({
            let reply = fa_frame(digits);
            let request = get_frequency_command();
            &&& forall|k: int|
                0 <= k < reply.len() - 1 ==> #[trigger] after_read(
                    request,
                    reply.take(k),
                    ReadEvent::Byte(reply[k]),
                ) == (Phase::Reading, LinkAction::ReadByte)
            &&& after_read(
                request,
                reply.take(reply.len() - 1),
                ReadEvent::Byte(reply.last()),
            ) == (Phase::Idle, LinkAction::Done)
            &&& is_frequency_reply(reply)
            &&& digits_value(reply_digits(reply)) == digits_value(digits)
        }),
{
    let reply = fa_frame(digits);
    let request = get_frequency_command();
    frequency_reply_shape(digits);
    assert forall|k: int| 0 <= k < reply.len() - 1 implies #[trigger] after_read(
        request,
        reply.take(k),
        ReadEvent::Byte(reply[k]),
    ) == (Phase::Reading, LinkAction::ReadByte) by {
        if 2 <= k {
            assert(is_digit(digits[k - 2]));
        }
    }
    assert(reply.take(reply.len() - 1).push(reply.last()) =~= reply);
}

/// Tuning to a frequency writes the eleven-digit set request and, since
/// the radio sends no reply to it, succeeds once the link has taken all
/// of its bytes.
pub proof fn set_frequency_succeeds_on_full_write(hz: nat)
    requires
        hz <= MAX_FREQUENCY,
    ensures
        set_frequency_command(hz).len() == FREQUENCY_DIGITS + 3,
        after_write(set_frequency_command(hz).len(), (FREQUENCY_DIGITS + 3) as usize, false) == (
            Phase::Idle,
            LinkAction::Done,
        ),
{
}

} // verus!
