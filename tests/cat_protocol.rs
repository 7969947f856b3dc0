use qdx_receiver::cat::{
    check_response, check_written, frequency_from_reply, get_frequency_request, parse_frequency,
    render_frequency, set_frequency_request, validate_request, ProtocolError, ReadEvent, ReadStep,
    ResponseReader, MAX_FREQUENCY,
};

#[test]
fn frequency_reply_gives_its_value() {
    assert_eq!(frequency_from_reply(b"FA00014074000;"), Ok(14074000));
}

#[test]
fn frequency_reply_beyond_u32_range() {
    assert_eq!(frequency_from_reply(b"FA99999999999;"), Ok(99_999_999_999));
    assert_eq!(frequency_from_reply(b"FA00000000000;"), Ok(0));
}

#[test]
fn frequency_reply_with_wrong_shape_is_rejected() {
    let bad: [&[u8]; 7] = [
        b"FA0001407400;",
        b"FA000140740000;",
        b"FA0001407400x;",
        b"FB00014074000;",
        b"FA00014074000",
        b"IF00014074000;",
        b"F",
    ];
    for reply in bad.iter() {
        assert_eq!(frequency_from_reply(reply), Err(ProtocolError::UnexpectedResponse));
    }
}

#[test]
fn set_frequency_request_is_zero_padded() {
    assert_eq!(set_frequency_request(7074000), b"FA00007074000;".to_vec());
    assert_eq!(set_frequency_request(0), b"FA00000000000;".to_vec());
    assert_eq!(set_frequency_request(MAX_FREQUENCY), b"FA99999999999;".to_vec());
}

#[test]
fn render_frequency_has_eleven_digits() {
    assert_eq!(render_frequency(14074000), b"00014074000".to_vec());
    assert_eq!(render_frequency(1), b"00000000001".to_vec());
}

#[test]
fn render_then_parse_round_trips() {
    for f in [0u64, 1, 9, 10, 7074000, 14074000, 4294967296, 12345678901, MAX_FREQUENCY] {
        assert_eq!(parse_frequency(&render_frequency(f)), Some(f));
    }
}

#[test]
fn parse_frequency_rejects_non_digits_and_wrong_length() {
    assert_eq!(parse_frequency(b"0001407400"), None);
    assert_eq!(parse_frequency(b"000140740000"), None);
    assert_eq!(parse_frequency(b"00014 74000"), None);
    assert_eq!(parse_frequency(b""), None);
}

#[test]
fn get_frequency_request_is_fa() {
    assert_eq!(get_frequency_request(), b"FA;".to_vec());
}

#[test]
fn short_requests_are_malformed() {
    assert_eq!(validate_request(b""), Err(ProtocolError::MalformedRequest));
    assert_eq!(validate_request(b"F"), Err(ProtocolError::MalformedRequest));
    assert_eq!(validate_request(b"FA"), Err(ProtocolError::MalformedRequest));
    assert_eq!(validate_request(b"FA;"), Ok(()));
}

#[test]
fn short_write_is_reported() {
    assert_eq!(check_written(3, 3), Ok(()));
    assert_eq!(
        check_written(14, 9),
        Err(ProtocolError::ShortWrite { expected: 14, written: 9 })
    );
}

#[test]
fn response_must_echo_mnemonic() {
    assert_eq!(check_response(b"FA;", b"FA00014074000;"), Ok(()));
    assert_eq!(check_response(b"FA;", b"IF;"), Err(ProtocolError::UnexpectedResponse));
    assert_eq!(check_response(b"FA;", b"FB;"), Err(ProtocolError::UnexpectedResponse));
    assert_eq!(check_response(b"FA;", b"XA;"), Err(ProtocolError::UnexpectedResponse));
}

#[test]
fn response_must_be_text_and_long_enough() {
    assert_eq!(check_response(b"FA;", b";"), Err(ProtocolError::UnexpectedResponse));
    assert_eq!(check_response(b"FA;", &[b'F', b'A', 0xff, b';']), Err(ProtocolError::UnexpectedResponse));
    assert_eq!(check_response(b"FA;", "FAé;".as_bytes()), Ok(()));
}

#[test]
fn reader_completes_at_terminator() {
    let mut reader = ResponseReader::new();
    let reply = b"FA00014074000;";
    for (i, b) in reply.iter().enumerate() {
        let step = reader.feed(ReadEvent::Byte(*b));
        if i + 1 < reply.len() {
            assert_eq!(step, ReadStep::Pending);
        } else {
            assert_eq!(step, ReadStep::Complete);
        }
    }
    assert_eq!(reader.received(), &reply[..]);
    assert_eq!(frequency_from_reply(reader.received()), Ok(14074000));
}

#[test]
fn reader_reports_timeout_and_link_failure() {
    let mut reader = ResponseReader::new();
    assert_eq!(reader.feed(ReadEvent::Byte(b'F')), ReadStep::Pending);
    assert_eq!(reader.feed(ReadEvent::TimedOut), ReadStep::Failed(ProtocolError::Timeout));
    assert_eq!(reader.feed(ReadEvent::Failed), ReadStep::Failed(ProtocolError::Io));
    assert_eq!(reader.received(), b"F");
}

use qdx_receiver::cat::{CatSession, LinkAction, LinkEvent};

fn run_session(
    session: &mut CatSession,
    request: Vec<u8>,
    awaits_reply: bool,
    written: usize,
    replies: &[ReadEvent],
) -> LinkAction {
    let mut action = session.begin(request, awaits_reply);
    let mut replies = replies.iter();
    loop {
        action = match action {
            LinkAction::Write => session.step(LinkEvent::Written(written)),
            LinkAction::ReadByte => match replies.next() {
                Some(e) => session.step(LinkEvent::Read(*e)),
                None => panic!("link has no more bytes"),
            },
            done => return done,
        };
    }
}

fn bytes(s: &[u8]) -> Vec<ReadEvent> {
    s.iter().map(|b| ReadEvent::Byte(*b)).collect()
}

#[test]
fn session_frequency_query() {
    let mut session = CatSession::new();
    assert!(session.is_idle());
    let action = run_session(&mut session, get_frequency_request(), true, 3, &bytes(b"FA00014074000;"));
    assert_eq!(action, LinkAction::Done);
    assert!(session.is_idle());
    assert_eq!(session.reply(), b"FA00014074000;");
    assert_eq!(frequency_from_reply(session.reply()), Ok(14074000));
}

#[test]
fn session_stops_reading_at_terminator() {
    let mut session = CatSession::new();
    let action = run_session(&mut session, b"FA;".to_vec(), true, 3, &bytes(b"FA123;FA456;"));
    assert_eq!(action, LinkAction::Done);
    assert_eq!(session.reply(), b"FA123;");
}

#[test]
fn session_set_frequency_needs_no_reply() {
    let mut session = CatSession::new();
    let mut action = session.begin(set_frequency_request(7074000), false);
    assert_eq!(action, LinkAction::Write);
    assert_eq!(session.request(), b"FA00007074000;");
    action = session.step(LinkEvent::Written(14));
    assert_eq!(action, LinkAction::Done);
    assert!(session.is_idle());
}

#[test]
fn session_short_request_fails_before_io() {
    let mut session = CatSession::new();
    assert_eq!(session.begin(b"FA".to_vec(), true), LinkAction::Failed(ProtocolError::MalformedRequest));
    assert!(session.is_idle());
}

#[test]
fn session_short_write_and_write_failure() {
    let mut session = CatSession::new();
    assert_eq!(session.begin(b"FA;".to_vec(), true), LinkAction::Write);
    assert_eq!(
        session.step(LinkEvent::Written(2)),
        LinkAction::Failed(ProtocolError::ShortWrite { expected: 3, written: 2 })
    );
    assert!(session.is_idle());
    assert_eq!(session.begin(b"FA;".to_vec(), true), LinkAction::Write);
    assert_eq!(session.step(LinkEvent::WriteFailed), LinkAction::Failed(ProtocolError::Io));
}

#[test]
fn session_read_failures() {
    let mut session = CatSession::new();
    let timed_out = run_session(&mut session, b"FA;".to_vec(), true, 3, &[ReadEvent::Byte(b'F'), ReadEvent::TimedOut]);
    assert_eq!(timed_out, LinkAction::Failed(ProtocolError::Timeout));
    let failed = run_session(&mut session, b"FA;".to_vec(), true, 3, &[ReadEvent::Failed]);
    assert_eq!(failed, LinkAction::Failed(ProtocolError::Io));
    let mismatch = run_session(&mut session, b"FA;".to_vec(), true, 3, &bytes(b"IF00;"));
    assert_eq!(mismatch, LinkAction::Failed(ProtocolError::UnexpectedResponse));
    let short = run_session(&mut session, b"FA;".to_vec(), true, 3, &bytes(b";"));
    assert_eq!(short, LinkAction::Failed(ProtocolError::UnexpectedResponse));
    // The session stays usable after each failure.
    let ok = run_session(&mut session, b"FA;".to_vec(), true, 3, &bytes(b"FA00007074000;"));
    assert_eq!(ok, LinkAction::Done);
}
