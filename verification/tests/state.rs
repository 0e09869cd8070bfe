use http_conn::message::{BodyDecoder, BodyEncoder, WriteBuf};
use http_conn::next::{Next, Reg};
use http_conn::state::{Chunk, Http1, Reading, State, Writing};

struct Body {
    id: u8,
    eof: bool,
}

impl BodyDecoder for Body {
    fn is_eof(&self) -> bool {
        self.eof
    }
}

impl BodyEncoder for Body {
    fn is_eof(&self) -> bool {
        self.eof
    }

    fn prefix(&mut self, _prefix: WriteBuf) {
        panic!("no answer has bytes go out");
    }
}

fn open(id: u8) -> Body {
    Body { id, eof: false }
}

fn over(id: u8) -> Body {
    Body { id, eof: true }
}

fn message(
    reading: Reading<Body>,
    writing: Writing<Body>,
    keep_alive: bool,
) -> State<&'static str, Body, Body> {
    State::Http1(Http1 { handler: "handler", reading, writing, keep_alive })
}

fn chunk() -> Writing<Body> {
    Writing::Chunk(Chunk { buf: b"head".to_vec(), pos: 1, next: (open(9), Next::wait()) })
}

fn show_reading(reading: &Reading<Body>) -> String {
    match reading {
        Reading::Init => "init".to_string(),
        Reading::Parse => "parse".to_string(),
        Reading::Body(body) => format!("body {}", body.id),
        Reading::Wait(body) => format!("wait {}", body.id),
        Reading::KeepAlive => "keep-alive".to_string(),
        Reading::Closed => "closed".to_string(),
    }
}

fn show_writing(writing: &Writing<Body>) -> String {
    match writing {
        Writing::Init => "init".to_string(),
        Writing::Head => "head".to_string(),
        Writing::Chunk(chunk) => format!("chunk {}", chunk.pos),
        Writing::Ready(body) => format!("ready {}", body.id),
        Writing::Wait(body) => format!("wait {}", body.id),
        Writing::KeepAlive => "keep-alive".to_string(),
        Writing::Closed => "closed".to_string(),
    }
}

fn show(state: &State<&'static str, Body, Body>) -> String {
    match state {
        State::Init => "init".to_string(),
        State::Closed => "closed".to_string(),
        State::Http1(http1) => {
            assert_eq!(http1.handler, "handler");
            format!("{} / {}", show_reading(&http1.reading), show_writing(&http1.writing))
        }
    }
}

fn updated(mut state: State<&'static str, Body, Body>, next: Next) -> String {
    state.update(next);
    show(&state)
}

fn answers() -> Vec<Next> {
    vec![Next::read(), Next::write(), Next::read_and_write(), Next::wait(), Next::end()]
}

#[test]
fn closed_stays_closed() {
    for next in answers() {
        assert_eq!(updated(State::Closed, next), "closed");
    }
}

#[test]
fn init_stays_init() {
    for next in answers() {
        assert_eq!(updated(State::Init, next), "init");
    }
}

#[test]
fn wait_changes_nothing() {
    let state = message(Reading::Body(over(1)), Writing::Ready(over(2)), false);
    assert_eq!(updated(state, Next::wait()), "body 1 / ready 2");
}

#[test]
fn end_of_both_halves_goes_back_to_init() {
    let ended = [
        message(Reading::KeepAlive, Writing::KeepAlive, true),
        message(Reading::KeepAlive, Writing::Ready(over(2)), true),
        message(Reading::Body(over(1)), Writing::KeepAlive, true),
        message(Reading::Body(over(1)), Writing::Ready(over(2)), true),
    ];
    for state in ended {
        assert_eq!(updated(state, Next::end()), "init");
    }
}

#[test]
fn end_without_keep_alive_closes() {
    let unkept = [
        message(Reading::KeepAlive, Writing::KeepAlive, false),
        message(Reading::KeepAlive, Writing::Ready(over(2)), false),
        message(Reading::Body(over(1)), Writing::KeepAlive, false),
        message(Reading::Body(over(1)), Writing::Ready(over(2)), false),
        message(Reading::Body(open(1)), Writing::Ready(open(2)), false),
        message(Reading::KeepAlive, chunk(), false),
    ];
    for state in unkept {
        assert_eq!(updated(state, Next::end()), "closed");
    }
}

#[test]
fn end_of_an_unfinished_half_closes() {
    let unfinished = [
        message(Reading::Body(open(1)), Writing::Ready(over(2)), true),
        message(Reading::Body(over(1)), Writing::Ready(open(2)), true),
        message(Reading::Body(open(1)), Writing::KeepAlive, true),
        message(Reading::KeepAlive, Writing::Ready(open(2)), true),
        message(Reading::KeepAlive, chunk(), true),
        message(Reading::KeepAlive, Writing::Head, true),
        message(Reading::Wait(over(1)), Writing::KeepAlive, true),
        message(Reading::KeepAlive, Writing::Wait(over(2)), true),
        message(Reading::Closed, Writing::Ready(over(2)), true),
        message(Reading::KeepAlive, Writing::Closed, true),
    ];
    for state in unfinished {
        assert_eq!(updated(state, Next::end()), "closed");
    }
}

#[test]
fn read_resumes_reading_and_pauses_writing() {
    let state = message(Reading::Wait(open(1)), Writing::Ready(open(2)), true);
    assert_eq!(updated(state, Next::read()), "body 1 / wait 2");
    let state = message(Reading::Wait(open(1)), Writing::Ready(over(2)), true);
    assert_eq!(updated(state, Next::read()), "body 1 / keep-alive");
    let state = message(Reading::Wait(open(1)), Writing::Ready(over(2)), false);
    assert_eq!(updated(state, Next::read()), "body 1 / closed");
    let state = message(Reading::KeepAlive, chunk(), true);
    assert_eq!(updated(state, Next::read()), "keep-alive / chunk 1");
}

#[test]
fn write_resumes_writing_and_pauses_reading() {
    let state = message(Reading::Body(open(1)), Writing::Wait(open(2)), true);
    assert_eq!(updated(state, Next::write()), "wait 1 / ready 2");
    let state = message(Reading::Body(over(1)), Writing::Wait(open(2)), true);
    assert_eq!(updated(state, Next::write()), "keep-alive / ready 2");
    let state = message(Reading::Body(over(1)), Writing::Wait(open(2)), false);
    assert_eq!(updated(state, Next::write()), "closed / ready 2");
    let state = message(Reading::Body(open(1)), Writing::Init, true);
    assert_eq!(updated(state, Next::write()), "wait 1 / init");
}

#[test]
fn read_and_write_resumes_both() {
    let state = message(Reading::Wait(over(1)), Writing::Wait(over(2)), false);
    assert_eq!(updated(state, Next::read_and_write()), "body 1 / ready 2");
    let state = message(Reading::Closed, Writing::Head, false);
    assert_eq!(updated(state, Next::read_and_write()), "closed / head");
}

#[test]
fn the_same_answer_twice_does_no_more() {
    for next in answers() {
        let mut once = message(Reading::Body(over(1)), Writing::Ready(over(2)), true);
        once.update(next.clone());
        let shown = show(&once);
        assert_eq!(updated(once, next), shown);
    }
}

#[test]
fn the_same_answer_twice_does_no_more_when_bodies_end_in_between() {
    let mut state = message(Reading::Body(open(1)), Writing::Ready(open(2)), true);
    state.update(Next::read());
    if let State::Http1(http1) = &mut state {
        if let Writing::Wait(body) = &mut http1.writing {
            body.eof = true;
        }
    }
    assert_eq!(show(&state), "body 1 / wait 2");
    assert_eq!(updated(state, Next::read()), "body 1 / wait 2");
}

#[test]
fn a_pause_is_undone() {
    for next in [Next::read(), Next::write()] {
        let mut state = message(Reading::Body(open(1)), Writing::Ready(open(2)), true);
        state.update(next);
        assert_eq!(updated(state, Next::read_and_write()), "body 1 / ready 2");
    }
}

#[test]
fn a_closed_half_stays_closed() {
    for next in [Next::read(), Next::write(), Next::read_and_write(), Next::wait()] {
        let mut state = message(Reading::Closed, Writing::Closed, true);
        state.update(next);
        assert_eq!(show(&state), "closed / closed");
        assert_eq!(updated(state, Next::end()), "closed");
    }
}

fn registered(reading: Reading<Body>, writing: Writing<Body>) -> Reg {
    Http1 { handler: (), reading, writing, keep_alive: true }.interest()
}

#[test]
fn interest_follows_what_is_left() {
    assert_eq!(registered(Reading::Closed, Writing::Closed), Reg::Remove);
    assert_eq!(registered(Reading::Body(open(1)), Writing::Head), Reg::ReadWrite);
    assert_eq!(registered(Reading::Parse, chunk()), Reg::ReadWrite);
    assert_eq!(registered(Reading::Body(open(1)), Writing::Init), Reg::Read);
    assert_eq!(registered(Reading::Body(open(1)), Writing::Closed), Reg::Read);
    assert_eq!(registered(Reading::KeepAlive, Writing::Ready(open(2))), Reg::Write);
    assert_eq!(registered(Reading::Closed, Writing::Head), Reg::Write);
    assert_eq!(registered(Reading::KeepAlive, Writing::KeepAlive), Reg::Wait);
    assert_eq!(registered(Reading::Wait(open(1)), Writing::Wait(open(2))), Reg::Wait);
    assert_eq!(registered(Reading::Init, Writing::Closed), Reg::Wait);
}

#[test]
fn a_new_message_begins_as_its_handler_wants() {
    let begin = |next: Next, body: Body, keep_alive: bool| {
        show(&State::<&'static str, Body, Body>::begin("handler", next, body, keep_alive))
    };
    assert_eq!(begin(Next::read(), open(1), true), "body 1 / init");
    assert_eq!(begin(Next::read_and_write(), over(1), false), "body 1 / head");
    assert_eq!(begin(Next::write(), open(1), true), "wait 1 / head");
    assert_eq!(begin(Next::write(), over(1), true), "keep-alive / head");
    assert_eq!(begin(Next::write(), over(1), false), "closed / head");
    assert_eq!(begin(Next::end(), over(1), true), "closed");
}
