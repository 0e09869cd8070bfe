use http_conn::conn::turn::{Stage, Turn};
use http_conn::conn::{Conn, IoError, MAX_BUFFER_SIZE};
use http_conn::handler::{MessageHandler, MessageHandlerFactory};
use http_conn::message::{
    BodyDecoder, BodyEncoder, Decoder, Encoder, Http1Message, MessageHead, Trans, WriteBuf,
};
use http_conn::next::{Next, Reg};
use http_conn::state::{Reading, State, Writing};
use rotor::EventSet;

/// A head that is a line of the form `<length of the body>[!]\n`, with the
/// mark for a connection that is not to be kept.
#[derive(Default)]
struct Line {
    length: usize,
    close: bool,
}

impl MessageHead for Line {
    fn should_keep_alive(&self) -> bool {
        !self.close
    }
}

struct Length {
    left: usize,
    prefix: Vec<u8>,
}

impl BodyDecoder for Length {
    fn is_eof(&self) -> bool {
        self.left == 0
    }
}

impl BodyEncoder for Length {
    fn is_eof(&self) -> bool {
        self.left == 0
    }

    fn prefix(&mut self, prefix: WriteBuf) {
        assert_eq!(prefix.pos, 0);
        self.prefix = prefix.bytes;
    }
}

struct Lines;

impl Http1Message for Lines {
    type Incoming = Line;
    type Outgoing = Line;
    type Decoder = Length;
    type Encoder = Length;
    type Error = ();

    fn initial_interest() -> Next {
        Next::read()
    }

    fn parse(bytes: &[u8]) -> Result<Option<(Line, usize)>, ()> {
        if bytes.starts_with(b"?") {
            return Err(());
        }
        match bytes.iter().position(|byte| *byte == b'\n') {
            None => Ok(None),
            Some(end) => {
                let digits = bytes[..end].iter().filter(|byte| byte.is_ascii_digit());
                let length = digits.fold(0, |sum, digit| sum * 10 + (digit - b'0') as usize);
                Ok(Some((Line { length, close: bytes[..end].contains(&b'!') }, end + 1)))
            }
        }
    }

    fn decoder(head: &Line) -> Result<Length, ()> {
        if head.length == 99 {
            Err(())
        } else {
            Ok(Length { left: head.length, prefix: Vec::new() })
        }
    }

    fn encode(head: Line, dst: &mut Vec<u8>) -> Length {
        dst.extend_from_slice(format!("ok {}\n", head.length).as_bytes());
        Length { left: head.length, prefix: Vec::new() }
    }
}

#[derive(Default)]
struct Port {
    incoming: Vec<u8>,
    outgoing: Vec<u8>,
    calls: Vec<&'static str>,
}

/// Answers from a script, and moves what it can of the bodies.
struct Script {
    answers: Vec<Next>,
    length: usize,
    close: bool,
}

impl Script {
    fn answer(&mut self) -> Next {
        self.answers.remove(0)
    }
}

impl MessageHandler<Port> for Script {
    type Message = Lines;

    fn on_incoming(&mut self, _head: Line) -> Next {
        self.answer()
    }

    fn on_outgoing(&mut self, head: &mut Line) -> Next {
        head.length = self.length;
        head.close = self.close;
        self.answer()
    }

    fn on_decode(&mut self, decoder: &mut Decoder<'_, Length, Port>) -> Next {
        let left = decoder.decoder.left;
        let taken = match &mut decoder.trans {
            Trans::Port(port) => {
                port.calls.push("decode from port");
                let n = left.min(port.incoming.len());
                port.incoming.drain(..n).count()
            }
            Trans::Buf(buffer, port) => {
                port.calls.push("decode from buffer");
                let n = left.min(buffer.len());
                buffer.consume(n);
                n
            }
        };
        decoder.decoder.left -= taken;
        self.answer()
    }

    fn on_encode(&mut self, encoder: &mut Encoder<'_, Length, Port>) -> Next {
        encoder.transport.calls.push("encode");
        encoder.transport.outgoing.append(&mut encoder.encoder.prefix);
        encoder.transport.outgoing.push(b'.');
        encoder.encoder.left -= 1;
        self.answer()
    }
}

fn script(answers: Vec<Next>) -> Script {
    Script { answers, length: 1, close: false }
}

type Connection = Conn<Port, Script>;

/// Runs a whole turn, with what the transport reads and the number of bytes
/// that it takes.
fn turn(
    conn: Connection,
    events: EventSet,
    factory: &mut impl MessageHandlerFactory<Port, Output = Script>,
    mut got: Vec<Result<Vec<u8>, IoError>>,
    mut put: Vec<Result<usize, IoError>>,
) -> Turn<Port, Script> {
    let mut turn = conn.ready(events);
    loop {
        turn = match turn.stage() {
            Stage::Readable { .. } => {
                assert!(turn.conn().can_read());
                turn.on_readable()
            }
            Stage::Fill { .. } => turn.read(factory, got.remove(0)).unwrap(),
            Stage::Writable => {
                assert!(turn.conn().can_write());
                turn.on_writable()
            }
            Stage::Flush => {
                let put = put.remove(0);
                if let Ok(n) = put {
                    let sent = turn.conn().pending()[..n].to_vec();
                    turn.transport_mut().outgoing.extend(sent);
                }
                turn.write(put)
            }
            Stage::Reregister(_) | Stage::Deregister => return turn,
        }
    }
}

fn none() -> Script {
    panic!("no handler is to be made");
}

fn fresh() -> Connection {
    Conn::new(Port::default())
}

fn after_reading(conn: Connection, bytes: &[u8], handler: Script) -> Turn<Port, Script> {
    let mut handler = Some(handler);
    let mut factory = || handler.take().unwrap();
    turn(conn, EventSet::readable(), &mut factory, vec![Ok(bytes.to_vec())], vec![])
}

fn registered(turn: &Turn<Port, Script>) -> Option<EventSet> {
    match turn.stage() {
        Stage::Reregister(events) => Some(events),
        _ => None,
    }
}

fn live(turn: Turn<Port, Script>) -> Connection {
    turn.finish(true).unwrap()
}

fn is_closed(conn: &Connection) -> bool {
    matches!(conn.state(), State::Closed)
}

fn is_init(conn: &Connection) -> bool {
    matches!(conn.state(), State::Init)
}

#[test]
fn a_new_connection_waits_as_its_messages_do() {
    let conn = fresh();
    assert!(is_init(&conn));
    assert_eq!(conn.interest(), Reg::Read);
    assert!(conn.can_read());
    assert!(!conn.can_write());
}

#[test]
fn no_event_registers_again() {
    let turn = turn(fresh(), EventSet::none(), &mut none, vec![], vec![]);
    assert_eq!(registered(&turn), Some(EventSet::readable()));
    assert!(is_init(&live(turn)));
}

#[test]
fn error_and_hup_events_are_neither_readable_nor_writable() {
    let events = EventSet::error() | EventSet::hup();
    let turn = turn(fresh(), events, &mut none, vec![], vec![]);
    assert_eq!(registered(&turn), Some(EventSet::readable()));
}

#[test]
fn end_of_transport_closes() {
    let turn = turn(fresh(), EventSet::readable(), &mut none, vec![Ok(vec![])], vec![]);
    assert!(is_closed(turn.conn()));
    assert!(matches!(turn.stage(), Stage::Deregister));
    assert!(turn.finish(true).is_none());
}

#[test]
fn passing_read_errors_change_nothing() {
    for error in [IoError::WouldBlock, IoError::Interrupted] {
        let turn = turn(fresh(), EventSet::readable(), &mut none, vec![Err(error)], vec![]);
        assert!(is_init(turn.conn()));
        assert_eq!(registered(&turn), Some(EventSet::readable()));
    }
}

#[test]
fn failed_reads_close() {
    let turn = turn(fresh(), EventSet::readable(), &mut none, vec![Err(IoError::Other)], vec![]);
    assert!(is_closed(turn.conn()));
}

#[test]
fn bad_heads_close() {
    let turn = turn(fresh(), EventSet::readable(), &mut none, vec![Ok(b"?".to_vec())], vec![]);
    assert!(is_closed(turn.conn()));
}

#[test]
fn heads_without_framing_close() {
    let turn = turn(fresh(), EventSet::readable(), &mut none, vec![Ok(b"99\n".to_vec())], vec![]);
    assert!(is_closed(turn.conn()));
}

#[test]
fn a_head_may_come_in_parts() {
    let part = turn(fresh(), EventSet::readable(), &mut none, vec![Ok(b"1".to_vec())], vec![]);
    assert!(is_init(part.conn()));
    let whole = after_reading(live(part), b"2\n", script(vec![Next::write()]));
    match whole.conn().state() {
        State::Http1(http1) => match &http1.reading {
            Reading::Wait(body) => assert_eq!(body.left, 12),
            _ => panic!("the body is not over"),
        },
        _ => panic!("a message is under way"),
    }
}

/// What is left of the body, whether the connection is kept, and where the
/// handler read from.
fn outcome(turn: &Turn<Port, Script>) -> (usize, bool, Vec<&'static str>) {
    match turn.conn().state() {
        State::Http1(http1) => match &http1.reading {
            Reading::Body(body) => {
                (body.left, http1.keep_alive, turn.conn().transport().calls.clone())
            }
            _ => panic!("the body is being read"),
        },
        _ => panic!("a message is under way"),
    }
}

#[test]
fn how_a_head_is_split_makes_no_difference() {
    let bytes = b"012!\nabc";
    let handler = || script(vec![Next::read(), Next::read()]);
    let whole = after_reading(fresh(), bytes, handler());
    assert_eq!(outcome(&whole), (9, false, vec!["decode from buffer"]));
    for at in 1..5 {
        let got = vec![Ok(bytes[..at].to_vec())];
        let part = turn(fresh(), EventSet::readable(), &mut none, got, vec![]);
        assert!(is_init(part.conn()));
        let split = after_reading(live(part), &bytes[at..], handler());
        assert_eq!(outcome(&split), outcome(&whole));
    }
}

#[test]
fn endless_heads_close() {
    let much = vec![b'1'; MAX_BUFFER_SIZE - 1];
    assert_eq!(MAX_BUFFER_SIZE, 417792);
    let part = turn(fresh(), EventSet::readable(), &mut none, vec![Ok(much)], vec![]);
    assert!(is_init(part.conn()));
    let full = turn(live(part), EventSet::readable(), &mut none, vec![Ok(vec![b'1'])], vec![]);
    assert!(is_closed(full.conn()));
}

#[test]
fn a_handler_that_wants_nothing_has_no_turn() {
    let mut factory = || script(vec![Next::wait()]);
    let turn = fresh().ready(EventSet::readable()).on_readable();
    assert!(turn.read(&mut factory, Ok(b"1\n".to_vec())).is_none());
}

#[test]
fn a_handler_that_ends_at_once_closes() {
    let turn = after_reading(fresh(), b"1\n", script(vec![Next::end()]));
    assert!(is_closed(turn.conn()));
}

#[test]
fn a_handler_that_reads_gets_the_bytes_read_ahead() {
    let turn = after_reading(fresh(), b"3\nab", script(vec![Next::read(), Next::read()]));
    assert_eq!(turn.conn().transport().calls, ["decode from buffer"]);
    assert_eq!(registered(&turn), Some(EventSet::readable()));
    match turn.conn().state() {
        State::Http1(http1) => {
            assert!(matches!(&http1.reading, Reading::Body(body) if body.left == 1));
            assert!(matches!(http1.writing, Writing::Init));
            assert!(http1.keep_alive);
        }
        _ => panic!("a message is under way"),
    }
}

#[test]
fn a_body_is_read_from_the_transport_when_nothing_was_read_ahead() {
    let port = Port { incoming: b"abcdef".to_vec(), ..Port::default() };
    let handler = script(vec![Next::read(), Next::read(), Next::write()]);
    let first = after_reading(Conn::new(port), b"4\n", handler);
    assert_eq!(first.conn().transport().calls, ["decode from port"]);
    assert_eq!(first.conn().transport().incoming, b"ef");
    let second = turn(live(first), EventSet::readable(), &mut none, vec![], vec![]);
    assert_eq!(second.conn().transport().calls, ["decode from port", "decode from port"]);
    match second.conn().state() {
        State::Http1(http1) => assert!(matches!(http1.reading, Reading::KeepAlive)),
        _ => panic!("a message is under way"),
    }
}

#[test]
fn a_handler_that_reads_and_writes_is_registered_for_both() {
    let answers = vec![Next::read_and_write(), Next::read_and_write()];
    let turn = after_reading(fresh(), b"3\n", script(answers));
    assert_eq!(registered(&turn), Some(EventSet::readable() | EventSet::writable()));
}

fn at_head(request: &[u8], answers: Vec<Next>) -> Connection {
    let mut all = vec![Next::write()];
    all.extend(answers);
    let turn = after_reading(fresh(), request, script(all));
    assert_eq!(registered(&turn), Some(EventSet::writable()));
    live(turn)
}

#[test]
fn head_and_body_go_out_together() {
    let conn = at_head(b"0\n", vec![Next::write(), Next::end()]);
    let first = turn(conn, EventSet::writable(), &mut none, vec![], vec![]);
    assert!(first.conn().transport().outgoing.is_empty());
    let second = turn(live(first), EventSet::writable(), &mut none, vec![], vec![]);
    assert_eq!(second.conn().transport().outgoing, b"ok 1\n.");
    assert!(is_init(second.conn()));
    assert_eq!(registered(&second), Some(EventSet::readable()));
}

#[test]
fn another_message_may_follow() {
    let conn = at_head(b"0\n", vec![Next::write(), Next::end()]);
    let first = turn(conn, EventSet::writable(), &mut none, vec![], vec![]);
    let second = turn(live(first), EventSet::writable(), &mut none, vec![], vec![]);
    let third = after_reading(live(second), b"0\n", script(vec![Next::write()]));
    assert_eq!(registered(&third), Some(EventSet::writable()));
}

#[test]
fn a_head_alone_goes_out_in_order() {
    let conn = at_head(b"0\n", vec![Next::wait()]);
    let first = turn(conn, EventSet::writable(), &mut none, vec![], vec![]);
    assert_eq!(first.conn().pending(), b"ok 1\n");
    let second = turn(live(first), EventSet::writable(), &mut none, vec![], vec![Ok(2)]);
    assert_eq!(second.conn().pending(), b" 1\n");
    let third = turn(live(second), EventSet::writable(), &mut none, vec![], vec![Ok(3)]);
    assert_eq!(third.conn().transport().outgoing, b"ok 1\n");
    assert_eq!(third.conn().pending(), b"");
    assert_eq!(registered(&third), Some(EventSet::writable()));
}

#[test]
fn passing_write_errors_change_nothing() {
    for error in [IoError::WouldBlock, IoError::Interrupted] {
        let conn = at_head(b"0\n", vec![Next::wait()]);
        let first = turn(conn, EventSet::writable(), &mut none, vec![], vec![]);
        let second = turn(live(first), EventSet::writable(), &mut none, vec![], vec![Err(error)]);
        assert_eq!(second.conn().pending(), b"ok 1\n");
        assert_eq!(registered(&second), Some(EventSet::writable()));
    }
}

#[test]
fn failed_writes_close() {
    let conn = at_head(b"0\n", vec![Next::wait()]);
    let first = turn(conn, EventSet::writable(), &mut none, vec![], vec![]);
    let second =
        turn(live(first), EventSet::writable(), &mut none, vec![], vec![Err(IoError::Other)]);
    assert!(is_closed(second.conn()));
    assert!(second.finish(true).is_none());
}

#[test]
fn ending_with_the_head_closes() {
    let conn = at_head(b"0\n", vec![Next::end()]);
    let turn = turn(conn, EventSet::writable(), &mut none, vec![], vec![]);
    assert!(is_closed(turn.conn()));
}

fn kept(request: &[u8], close: bool) -> bool {
    let mut handler = script(vec![Next::write(), Next::wait()]);
    handler.close = close;
    let first = after_reading(fresh(), request, handler);
    let second = turn(live(first), EventSet::writable(), &mut none, vec![], vec![]);
    match second.conn().state() {
        State::Http1(http1) => http1.keep_alive,
        _ => panic!("a message is under way"),
    }
}

#[test]
fn both_sides_have_to_keep_the_connection() {
    assert!(kept(b"0\n", false));
    assert!(!kept(b"0\n", true));
    assert!(!kept(b"0!\n", false));
    assert!(!kept(b"0!\n", true));
}

#[test]
fn a_request_that_closes_is_the_last() {
    let conn = at_head(b"0!\n", vec![Next::write(), Next::end()]);
    let first = turn(conn, EventSet::writable(), &mut none, vec![], vec![]);
    let second = turn(live(first), EventSet::writable(), &mut none, vec![], vec![]);
    assert!(is_closed(second.conn()));
}

#[test]
fn a_response_that_closes_is_the_last() {
    let mut handler = script(vec![Next::write(), Next::write(), Next::end()]);
    handler.close = true;
    let first = after_reading(fresh(), b"0\n", handler);
    match first.conn().state() {
        State::Http1(http1) => {
            assert!(matches!(http1.reading, Reading::KeepAlive));
            assert!(http1.keep_alive);
        }
        _ => panic!("a message is under way"),
    }
    let second = turn(live(first), EventSet::writable(), &mut none, vec![], vec![]);
    let third = turn(live(second), EventSet::writable(), &mut none, vec![], vec![]);
    assert_eq!(third.conn().transport().outgoing, b"ok 1\n.");
    assert!(is_closed(third.conn()));
    assert!(matches!(third.stage(), Stage::Deregister));
    assert!(third.finish(true).is_none());
}

#[test]
fn both_events_are_taken_up_in_one_turn() {
    let answers = vec![
        Next::read_and_write(),
        Next::read_and_write(),
        Next::read_and_write(),
        Next::read_and_write(),
    ];
    let first = after_reading(fresh(), b"9\n", script(answers));
    let both = EventSet::readable() | EventSet::writable();
    let second = turn(live(first), both, &mut none, vec![], vec![]);
    assert_eq!(second.conn().transport().calls, ["decode from port", "decode from port"]);
    match second.conn().state() {
        State::Http1(http1) => match &http1.writing {
            Writing::Ready(body) => assert_eq!(body.prefix, b"ok 1\n"),
            _ => panic!("the body is to be written"),
        },
        _ => panic!("a message is under way"),
    }
}

#[test]
fn a_connection_that_is_not_registered_is_gone() {
    let turn = turn(fresh(), EventSet::none(), &mut none, vec![], vec![]);
    assert!(turn.finish(false).is_none());
}

#[test]
fn closed_connections_take_up_nothing() {
    let first = turn(fresh(), EventSet::readable(), &mut none, vec![Ok(vec![])], vec![]);
    assert!(first.conn().can_read());
    assert!(first.conn().can_write());
    assert_eq!(first.conn().interest(), Reg::Remove);
    let both = EventSet::readable() | EventSet::writable();
    let mut conn = fresh();
    conn = live(turn(conn, EventSet::none(), &mut none, vec![], vec![]));
    let second = turn(conn, both, &mut none, vec![Ok(vec![])], vec![]);
    assert!(is_closed(second.conn()));
    assert!(matches!(second.stage(), Stage::Deregister));
}

struct Counter {
    made: usize,
}

impl MessageHandlerFactory<Port> for Counter {
    type Output = Script;

    fn create(&mut self) -> Script {
        self.made += 1;
        script(vec![Next::end()])
    }
}

#[test]
fn one_handler_is_made_for_one_head() {
    let mut counter = Counter { made: 0 };
    let conn = fresh();
    let got = vec![Ok(b"1".to_vec())];
    let part = turn(conn, EventSet::readable(), &mut counter, got, vec![]);
    assert_eq!(counter.made, 0);
    let got = vec![Ok(b"\n1\n".to_vec())];
    let whole = turn(live(part), EventSet::readable(), &mut counter, got, vec![]);
    assert_eq!(counter.made, 1);
    assert!(is_closed(whole.conn()));
}
