//! What holds of connections as a whole, over all the ways they can go.
use crate::conn::turn::{Stage, Turn};
use crate::conn::{Conn, IoError, MAX_BUFFER_SIZE};
use crate::events::{event_kinds, READABLE, WRITABLE};
use crate::handler::{IncomingOf, MessageHandler};
use crate::message::{BodyDecoder, BodyEncoder, Http1Message};
use crate::next::{registration, Next_, Reg};
use crate::state::{Http1, Reading, State, Writing};
use vstd::prelude::*;

pub mod answers;
pub mod bodies;
pub mod callbacks;
pub mod reading;
pub mod turns;

verus! {

/// A connection that is over stays over, whatever a handler answers.
pub proof fn closed_stays_closed<H, D: BodyDecoder, E: BodyEncoder>(
    next: Next_,
    after: State<H, D, E>,
)
    requires
        State::<H, D, E>::Closed.moves(next, after),
    ensures
        after is Closed,
{
}

/// Giving up the connection closes it from every state.
pub proof fn remove_closes<H, D: BodyDecoder, E: BodyEncoder>(
    state: State<H, D, E>,
    after: State<H, D, E>,
)
    requires
        state.moves(Next_::Remove, after),
    ensures
        after is Closed,
{
}

/// A handler that does not want anything changes nothing.
pub proof fn wait_keeps_all<H, D: BodyDecoder, E: BodyEncoder>(
    state: State<H, D, E>,
    after: State<H, D, E>,
)
    requires
        state.moves(Next_::Wait, after),
    ensures
        after == state,
{
}

/// There is only one message at a time: no answer replaces the handler of a
/// message, and none brings a message where there was none. Whether the
/// connection is kept does not change either.
pub proof fn answers_keep_the_message<H, D: BodyDecoder, E: BodyEncoder>(
    state: State<H, D, E>,
    next: Next_,
    after: State<H, D, E>,
)
    requires
        state.moves(next, after),
    ensures
        after matches State::Http1(later) ==> state matches State::Http1(message)
            && later.handler == message.handler && later.keep_alive == message.keep_alive,
{
}

/// The same answer twice does no more than once, whatever the bodies say of
/// their ends in between.
pub proof fn answering_twice_is_answering_once<H, D: BodyDecoder, E: BodyEncoder>(
    state: State<H, D, E>,
    next: Next_,
    once: State<H, D, E>,
    twice: State<H, D, E>,
)
    requires
        state.moves(next, once),
        once.moves(next, twice),
    ensures
        twice == once,
{
}

/// A pause is undone by going on in both directions: no body that is not over
/// gets lost on the way.
pub proof fn pauses_are_undone<H, D, E>(
    state: State<H, D, E>,
    next: Next_,
    decoded: bool,
    encoded: bool,
    more_decoded: bool,
    more_encoded: bool,
)
    requires
        next == Next_::Read && !encoded || next == Next_::Write && !decoded,
    ensures
        state.updated(next, decoded, encoded).updated(
            Next_::ReadWrite,
            more_decoded,
            more_encoded,
        ) == state.updated(Next_::ReadWrite, more_decoded, more_encoded),
{
}

/// The end of a message leaves nothing of it: the connection waits for
/// another message if it is kept alive and this one is over in both
/// directions, and is over otherwise.
pub proof fn end_ends_the_message<H, D: BodyDecoder, E: BodyEncoder>(
    message: Http1<H, D, E>,
    after: State<H, D, E>,
)
    requires
        State::Http1(message).moves(Next_::End, after),
    ensures
        after is Init || after is Closed,
        after is Init ==> message.keep_alive,
        after is Init ==> (message.reading is KeepAlive || message.reading is Body) && (
        message.writing is KeepAlive || message.writing is Ready),
        after is Init ==> (message.reading matches Reading::Body(decoder) ==> call_ensures(
            D::is_eof,
            (&decoder,),
            true,
        )),
        after is Init ==> (message.writing matches Writing::Ready(encoder) ==> call_ensures(
            E::is_eof,
            (&encoder,),
            true,
        )),
{
}

/// A half of a message only comes to wait for another message where the
/// connection is kept; where it is not, a body that is over closes its half.
pub proof fn only_kept_connections_wait<H, D: BodyDecoder, E: BodyEncoder>(
    message: Http1<H, D, E>,
    next: Next_,
    after: Http1<H, D, E>,
)
    requires
        State::Http1(message).moves(next, State::Http1(after)),
    ensures
        after.reading is KeepAlive ==> message.reading is KeepAlive || message.keep_alive,
        after.writing is KeepAlive ==> message.writing is KeepAlive || message.keep_alive,
        after.reading is Closed ==> message.reading is Closed || !message.keep_alive,
        after.writing is Closed ==> message.writing is Closed || !message.keep_alive,
{
}

/// A message with a closed half is the last one: the half stays closed, and
/// no answer has the connection wait for another message.
pub proof fn closed_halves_are_final<H, D: BodyDecoder, E: BodyEncoder>(
    message: Http1<H, D, E>,
    next: Next_,
    after: State<H, D, E>,
)
    requires
        message.reading is Closed || message.writing is Closed,
        State::Http1(message).moves(next, after),
    ensures
        !(after is Init),
        after matches State::Http1(later) ==> (message.reading is Closed ==> later.reading is Closed)
            && (message.writing is Closed ==> later.writing is Closed),
{
}

/// The event loop watches for readable events exactly while there is
/// something to read for the message, for writable events exactly while there
/// is something to write, and lets go of it exactly when both of its halves
/// are closed.
pub proof fn registration_tells_what_is_left<H, D, E>(message: Http1<H, D, E>)
    ensures
        message.registration().wants_read() <==> message.reads(),
        message.registration().wants_write() <==> message.writes(),
        message.registration() == Reg::Remove <==> message.reading is Closed
            && message.writing is Closed,
{
}

/// While both bodies of a message are under way, what its handler answers is
/// what the event loop watches for.
pub proof fn answers_are_registered<H, D: BodyDecoder, E: BodyEncoder>(
    message: Http1<H, D, E>,
    next: Next_,
    after: Http1<H, D, E>,
)
    requires
        message.reading is Body || message.reading is Wait,
        message.writing is Ready || message.writing is Wait,
        next == Next_::Read || next == Next_::Write || next == Next_::ReadWrite,
        State::Http1(message).moves(next, State::Http1(after)),
    ensures
        after.registration() == registration(next),
{
}

/// What the handler of a new message answers to its head is what the event
/// loop watches for.
pub proof fn first_answers_are_registered<H, D: BodyDecoder, E: BodyEncoder>(
    handler: H,
    next: Next_,
    decoder: D,
    keep_alive: bool,
    after: State<H, D, E>,
)
    requires
        next == Next_::Read || next == Next_::Write || next == Next_::ReadWrite,
        State::begins(handler, next, decoder, keep_alive, after),
    ensures
        after matches State::Http1(message) && message.registration() == registration(next),
{
}

/// A message that is under way was begun by reading its head: that is not
/// still to be done.
pub open spec fn begun_by_reading<H, D, E>(state: State<H, D, E>) -> bool {
    state matches State::Http1(message) ==> !(message.reading is Init) && !(
    message.reading is Parse)
}

/// Whether one step of any kind takes a connection from `before` to `after`:
/// bytes that were read, a handler that reads, fills in a head or writes, or
/// bytes that were written.
pub open spec fn steps<T, H: MessageHandler<T>>(before: Conn<T, H>, after: Conn<T, H>) -> bool {
    ||| before.status() is Init && exists|got: Result<Vec<u8>, IoError>, made: Option<H>|
        #[trigger] before.reads(got, made, Some(after))
    ||| before.decodes(after)
    ||| before.heads(after)
    ||| before.encodes(after)
    ||| exists|put: Result<usize, IoError>| #[trigger] before.writes(put, after)
}

/// Every message was begun by reading its head: a new connection has none,
/// and no step brings another.
pub proof fn messages_begin_by_reading<T, H: MessageHandler<T>>(
    before: Conn<T, H>,
    after: Conn<T, H>,
)
    requires
        steps(before, after),
        begun_by_reading(before.status()),
    ensures
        begun_by_reading(after.status()),
{
}

/// What the event loop was asked to watch for, a connection can take up when
/// it comes: a readable event always, and a writable event while a message is
/// under way.
pub proof fn what_is_asked_for_is_taken_up<T, H: MessageHandler<T>>(conn: Conn<T, H>, reg: Reg)
    requires
        begun_by_reading(conn.status()),
        conn.asks(reg),
    ensures
        reg.wants_read() ==> conn.takes_readable(),
        reg.wants_write() && !(conn.status() is Init) ==> conn.takes_writable(),
{
}

/// Where a message wants the connection closed after it, that cannot be taken
/// back: no step while the message is under way marks it as one after which
/// the connection is kept, and none has the connection wait for another
/// message.
pub proof fn closing_cannot_be_stopped<T, H: MessageHandler<T>>(
    before: Conn<T, H>,
    after: Conn<T, H>,
)
    requires
        steps(before, after),
        before.status() matches State::Http1(message) && !message.keep_alive,
    ensures
        !(after.status() is Init),
        after.status() matches State::Http1(later) ==> !later.keep_alive,
{
}

/// A connection that is over takes no step any more, and leaves the event
/// loop.
pub proof fn closed_connections_leave<T, H: MessageHandler<T>>(
    conn: Conn<T, H>,
    after: Conn<T, H>,
    turn: Turn<T, H>,
)
    requires
        conn.status() is Closed,
    ensures
        !steps(conn, after),
        turn.connection() == conn && turn.settles() ==> turn.due() is Deregister,
{
}

/// The bytes of a head go out in order, each once: what the transport took is
/// gone from the front of what is left to be written.
pub proof fn heads_go_out_in_order<T, H: MessageHandler<T>>(
    before: Conn<T, H>,
    n: usize,
    after: Conn<T, H>,
)
    requires
        before.wf(),
        n <= before.unsent().len(),
        before.writes(Ok(n), after),
        after.status() is Http1,
    ensures
        after.unsent() == before.unsent().skip(n as int),
{
    if let State::Http1(Http1 { writing: Writing::Chunk(chunk), .. }) = before.status() {
        assert(chunk.pos + n <= chunk.buf.len());
    }
    assert(after.unsent() =~= before.unsent().skip(n as int));
}

/// Where the transport may work later, nothing changes.
pub proof fn passing_errors_change_nothing<T, H: MessageHandler<T>>(
    before: Conn<T, H>,
    error: IoError,
    made: Option<H>,
    end: Option<Conn<T, H>>,
    after: Conn<T, H>,
)
    requires
        error.passes(),
    ensures
        before.status() is Init && before.reads(Err(error), made, end) ==> made is None && (
        end matches Some(conn) && conn.rests(before.status(), before.buffer()@, before.port())),
        before.writes(Err(error), after) ==> after.rests(
            before.status(),
            before.buffer()@,
            before.port(),
        ),
{
}

/// A connection that waits for the rest of a head holds less than
/// `MAX_BUFFER_SIZE` of it, and all that came.
pub proof fn unfinished_heads_are_bounded<T, H: MessageHandler<T>>(
    before: Conn<T, H>,
    bytes: Vec<u8>,
    after: Conn<T, H>,
)
    requires
        bytes@.len() > 0,
        before.reads(Ok(bytes), None, Some(after)),
        after.status() is Init,
    ensures
        after.buffer()@ == before.buffer()@ + bytes@,
        after.buffer()@.len() < MAX_BUFFER_SIZE,
{
}

/// How bytes are split over reads makes no difference: where those read ahead
/// and those that came are the same together, the connection becomes the same
/// with the same handler.
pub proof fn splits_do_not_matter<T, H: MessageHandler<T>>(
    split: Conn<T, H>,
    last: Vec<u8>,
    whole: Conn<T, H>,
    all: Vec<u8>,
    made: Option<H>,
    end: Option<Conn<T, H>>,
)
    requires
        split.port() == whole.port(),
        last@.len() > 0,
        all@.len() > 0,
        split.buffer()@ + last@ == whole.buffer()@ + all@,
    ensures
        split.reads(Ok(last), made, end) <==> whole.reads(Ok(all), made, end),
{
    let unread = whole.buffer()@ + all@;
    assert(split.parses(unread, made, end) <==> whole.parses(unread, made, end));
}

/// A head may come in parts: bytes that do not hold a whole head yet, and are
/// not too many, leave the connection waiting with all of them read ahead, and
/// what it becomes with the rest is what it becomes with everything at once.
pub proof fn heads_may_come_in_parts<T, H: MessageHandler<T>>(
    before: Conn<T, H>,
    first: Vec<u8>,
    early: Option<H>,
    between: Option<Conn<T, H>>,
    rest: Vec<u8>,
    all: Vec<u8>,
    made: Option<H>,
    end: Option<Conn<T, H>>,
)
    requires
        first@.len() > 0,
        rest@.len() > 0,
        all@ == first@ + rest@,
        before.buffer()@.len() + first@.len() < MAX_BUFFER_SIZE,
        forall|
            data: &[u8],
            parsed: Result<
                Option<(IncomingOf<T, H>, usize)>,
                <H::Message as Http1Message>::Error,
            >,
        |
            data@ == before.buffer()@ + first@ && #[trigger] call_ensures(
                <H::Message as Http1Message>::parse,
                (data,),
                parsed,
            ) ==> parsed matches Ok(None),
        before.reads(Ok(first), early, between),
    ensures
        early is None,
        between matches Some(conn) && {
            &&& conn.rests(State::Init, before.buffer()@ + first@, before.port())
            &&& conn.reads(Ok(rest), made, end) <==> before.reads(Ok(all), made, end)
        },
{
    if let Some(conn) = between {
        assert(conn.buffer()@ + rest@ =~= before.buffer()@ + all@);
        splits_do_not_matter(conn, rest, before, all, made, end);
    }
}

/// A handler is made only where a whole head was read off the bytes at hand,
/// those read ahead and those that came.
pub proof fn handlers_are_made_for_heads<T, H: MessageHandler<T>>(
    before: Conn<T, H>,
    got: Result<Vec<u8>, IoError>,
    made: H,
    end: Option<Conn<T, H>>,
)
    requires
        before.reads(got, Some(made), end),
    ensures
        got matches Ok(bytes) && exists|data: &[u8], head: IncomingOf<T, H>, len: usize|
            {
                &&& data@ == before.buffer()@ + bytes@
                &&& #[trigger] call_ensures(
                    <H::Message as Http1Message>::parse,
                    (data,),
                    Ok(Some((head, len))),
                )
            },
{
}

/// A turn ends with the connection registered for exactly what it asks for.
pub proof fn turns_end_registered<T, H: MessageHandler<T>>(turn: Turn<T, H>)
    requires
        turn.settles(),
        turn.connection().status() is Http1,
    ensures
        turn.connection().status() matches State::Http1(message) && match turn.due() {
            Stage::Deregister => message.reading is Closed && message.writing is Closed,
            Stage::Reregister(events) => {
                &&& event_kinds(events).contains(READABLE) <==> message.reads()
                &&& event_kinds(events).contains(WRITABLE) <==> message.writes()
            },
            _ => false,
        },
{
}

} // verus!
