//! What a turn in the event loop does with its connection, and what the event
//! loop is told at its end.
use crate::buffer::Buffer;
use crate::conn::turn::{Stage, Turn};
use crate::conn::{Conn, IoError, StateOf};
use crate::events::{event_kinds, READABLE, WRITABLE};
use crate::handler::{EncoderOf, MessageHandler, MessageHandlerFactory};
use crate::message::{Encoder, Http1Message};
use crate::next::{Next, Next_, Reg};
use crate::state::{State, Writing};
use rotor::EventSet;
use vstd::prelude::*;

verus! {

/// Bytes put into a buffer come out of it in order, each once: those that were
/// there first, then the new ones.
pub proof fn buffers_are_queues()
    ensures
        forall|buffer: Buffer| #[trigger] call_ensures(Buffer::new, (), buffer) ==> buffer@.len()
            == 0,
        forall|buffer: Buffer, bytes: &[u8]| #[trigger]
            call_ensures(Buffer::bytes, (&buffer,), bytes) ==> bytes@ == buffer@,
        forall|buffer: Buffer, n: usize| #[trigger] call_ensures(Buffer::len, (&buffer,), n) ==> n
            == buffer@.len(),
        forall|buffer: Buffer, yes: bool| #[trigger]
            call_ensures(Buffer::is_empty, (&buffer,), yes) ==> (yes <==> buffer@.len() == 0),
        forall|buffer: &mut Buffer, bytes: Vec<u8>|
            #[trigger] call_ensures(Buffer::put, (buffer, bytes), ()) ==> {
                &&& final(buffer)@.len() == buffer@.len() + bytes@.len()
                &&& final(buffer)@.take(buffer@.len() as int) =~= buffer@
                &&& final(buffer)@.skip(buffer@.len() as int) =~= bytes@
            },
        forall|buffer: &mut Buffer, n: usize| #[trigger]
            call_ensures(Buffer::consume, (buffer, n), ()) ==> {
                &&& n >= buffer@.len() ==> final(buffer)@.len() == 0
                &&& n < buffer@.len() ==> buffer@ =~= buffer@.take(n as int) + final(buffer)@
            },
{
}

/// A new connection has no message, has nothing read ahead, and runs over its
/// transport.
pub proof fn new_connections_are_blank<T, H: MessageHandler<T>>(transport: T, conn: Conn<T, H>)
    requires
        call_ensures(Conn::<T, H>::new, (transport,), conn),
    ensures
        conn.status() is Init,
        conn.buffer()@.len() == 0,
        conn.port() == transport,
{
}

/// A connection asks for readable events exactly while a head or body of its
/// message is being read, for writable events exactly while one is being
/// written, and to leave exactly where it is over or both halves of its message
/// are. Without a message it asks for what its kind of message waits for.
pub proof fn connections_ask_for_what_is_open<T, H: MessageHandler<T>>(
    conn: Conn<T, H>,
    reg: Reg,
    wish: Next_,
)
    requires
        call_ensures(Conn::<T, H>::interest, (&conn,), reg),
        forall|next: Next| #[trigger]
            call_ensures(<H::Message as Http1Message>::initial_interest, (), next) ==> next@
                == wish,
    ensures
        reg == Reg::Remove <==> match conn.status() {
            State::Init => wish == Next_::End || wish == Next_::Remove,
            State::Http1(message) => message.reading is Closed && message.writing is Closed,
            State::Closed => true,
        },
        reg == Reg::Read || reg == Reg::ReadWrite <==> match conn.status() {
            State::Init => wish == Next_::Read || wish == Next_::ReadWrite,
            State::Http1(message) => message.reading is Parse || message.reading is Body,
            State::Closed => false,
        },
        reg == Reg::Write || reg == Reg::ReadWrite <==> match conn.status() {
            State::Init => wish == Next_::Write || wish == Next_::ReadWrite,
            State::Http1(message) => message.writing is Head || message.writing is Chunk
                || message.writing is Ready,
            State::Closed => false,
        },
{
}

/// A readable event is of use unless a message is under way whose body is not
/// being read; a writable event is of use while a head or a body is being
/// written, and where nothing will ever be written again.
pub proof fn events_are_of_use<T, H: MessageHandler<T>>(
    conn: Conn<T, H>,
    read: bool,
    write: bool,
)
    requires
        call_ensures(Conn::<T, H>::can_read, (&conn,), read),
        call_ensures(Conn::<T, H>::can_write, (&conn,), write),
    ensures
        read <==> match conn.status() {
            State::Init => true,
            State::Http1(message) => message.reading is Body,
            State::Closed => true,
        },
        write <==> match conn.status() {
            State::Init => false,
            State::Http1(message) => match message.writing {
                Writing::Head => true,
                Writing::Chunk(_) => true,
                Writing::Ready(_) => true,
                Writing::Closed => true,
                _ => false,
            },
            State::Closed => true,
        },
{
}

/// At the end of a turn the transport of a message is registered for readable
/// events exactly while a head or body is being read, for writable events
/// exactly while one is being written, and for nothing else; it is taken out
/// exactly where both halves of the message are closed, or the connection is.
pub proof fn settled_turns_watch_for_what_is_open<T, H: MessageHandler<T>>(turn: Turn<T, H>)
    requires
        turn.settles(),
        !(turn.connection().status() is Init),
    ensures
        turn.connection().status() is Closed ==> turn.due() is Deregister,
        turn.connection().status() matches State::Http1(message) ==> match turn.due() {
            Stage::Deregister => message.reading is Closed && message.writing is Closed,
            Stage::Reregister(events) => {
                &&& !(message.reading is Closed && message.writing is Closed)
                &&& forall|kind: usize| #[trigger]
                    event_kinds(events).contains(kind) <==> {
                        ||| kind == 0x001 && (message.reading is Parse || message.reading is Body)
                        ||| kind == 0x002 && (message.writing is Head || message.writing is Chunk
                            || message.writing is Ready)
                    }
            },
            _ => false,
        },
{
}

/// At the end of a turn without a message the transport is registered for
/// what the kind of message waits for.
pub proof fn idle_turns_watch_for_messages<T, H: MessageHandler<T>>(turn: Turn<T, H>, wish: Next_)
    requires
        turn.settles(),
        turn.connection().status() is Init,
        forall|next: Next| #[trigger]
            call_ensures(<H::Message as Http1Message>::initial_interest, (), next) ==> next@
                == wish,
    ensures
        match turn.due() {
            Stage::Deregister => wish == Next_::End || wish == Next_::Remove,
            Stage::Reregister(events) => {
                &&& wish != Next_::End && wish != Next_::Remove
                &&& forall|kind: usize| #[trigger]
                    event_kinds(events).contains(kind) <==> {
                        ||| kind == 0x001 && (wish == Next_::Read || wish == Next_::ReadWrite)
                        ||| kind == 0x002 && (wish == Next_::Write || wish == Next_::ReadWrite)
                    }
            },
            _ => false,
        },
{
}

/// A turn begins with reading where the transport is readable, remembers that
/// it is also writable, begins with writing where it is only that, and is at
/// its end where it is neither. The connection is untouched.
pub proof fn turns_begin_with_their_events<T, H: MessageHandler<T>>(
    conn: Conn<T, H>,
    events: EventSet,
    turn: Turn<T, H>,
)
    requires
        call_ensures(Conn::<T, H>::ready, (conn, events), turn),
    ensures
        turn.connection() == conn,
        event_kinds(events).contains(READABLE) ==> (turn.due() matches Stage::Readable { writable }
            && writable == event_kinds(events).contains(WRITABLE)),
        !event_kinds(events).contains(READABLE) && event_kinds(events).contains(WRITABLE)
            ==> turn.due() is Writable,
        !event_kinds(events).contains(READABLE) && !event_kinds(events).contains(WRITABLE)
            ==> turn.settles(),
{
}

/// A readable transport is read from where no message is under way, and given
/// to the handler where one is. Writing follows where the transport was also
/// writable, and the end of the turn where it was not.
pub proof fn readable_transports_are_read<T, H: MessageHandler<T>>(
    turn: Turn<T, H>,
    also: bool,
    later: Turn<T, H>,
)
    requires
        call_ensures(Turn::<T, H>::on_readable, (turn,), later),
        turn.due() == (Stage::Readable { writable: also }),
    ensures
        match turn.connection().status() {
            State::Init => {
                &&& later.connection() == turn.connection()
                &&& later.due() matches Stage::Fill { writable } && writable == also
            },
            State::Http1(_) => {
                &&& turn.connection().decodes(later.connection())
                &&& if also {
                    later.due() is Writable
                } else {
                    later.settles()
                }
            },
            State::Closed => {
                &&& later.connection() == turn.connection()
                &&& if also {
                    later.due() is Writable
                } else {
                    later.settles()
                }
            },
        },
{
}

/// What was read from the transport is what the connection reads. Writing
/// follows where the transport was also writable, and the end of the turn
/// where it was not. There is no turn to go on with where there is no
/// connection.
pub proof fn turns_go_on_with_what_was_read<
    T,
    H: MessageHandler<T>,
    F: MessageHandlerFactory<T, Output = H>,
>(turn: Turn<T, H>, also: bool)
    requires
        turn.due() == (Stage::Fill { writable: also }),
    ensures
        forall|factory: &mut F, got: Result<Vec<u8>, IoError>, later: Turn<T, H>|
            #[trigger] call_ensures(
                Turn::<T, H>::read::<F>,
                (turn, factory, got),
                Some(later),
            ) ==> {
                &&& if also {
                    later.due() is Writable
                } else {
                    later.settles()
                }
                &&& {
                    ||| turn.connection().reads(got, None, Some(later.connection()))
                        && *final(factory) == *factory
                    ||| exists|handler: H, maker: &mut F|
                        {
                            &&& #[trigger] turn.connection().reads(
                                got,
                                Some(handler),
                                Some(later.connection()),
                            )
                            &&& #[trigger] call_ensures(F::create, (maker,), handler)
                            &&& *maker == *factory
                            &&& *final(maker) == *final(factory)
                        }
                }
            },
        forall|factory: &mut F, got: Result<Vec<u8>, IoError>|
            #[trigger] call_ensures(
                Turn::<T, H>::read::<F>,
                (turn, factory, got),
                None::<Turn<T, H>>,
            ) ==> {
                ||| turn.connection().reads(got, None, None) && *final(factory) == *factory
                ||| exists|handler: H, maker: &mut F|
                    {
                        &&& #[trigger] turn.connection().reads(got, Some(handler), None)
                        &&& #[trigger] call_ensures(F::create, (maker,), handler)
                        &&& *maker == *factory
                        &&& *final(maker) == *final(factory)
                    }
            },
{
}

/// A writable transport has a head filled in, the bytes of a head written or
/// a body written, whichever is up, and is let be where nothing is. But for
/// the bytes of a head that are still to be written, that ends the turn.
pub proof fn writable_transports_are_written<T, H: MessageHandler<T>>(
    turn: Turn<T, H>,
    later: Turn<T, H>,
)
    requires
        call_ensures(Turn::<T, H>::on_writable, (turn,), later),
    ensures
        match turn.connection().status() {
            State::Http1(message) => match message.writing {
                Writing::Head => turn.connection().heads(later.connection()) && later.settles(),
                Writing::Chunk(_) => later.connection() == turn.connection()
                    && later.due() is Flush,
                Writing::Ready(_) => turn.connection().encodes(later.connection())
                    && later.settles(),
                _ => later.connection() == turn.connection() && later.settles(),
            },
            _ => later.connection() == turn.connection() && later.settles(),
        },
{
}

/// What came of writing is what the connection goes on with, and ends the
/// turn.
pub proof fn turns_end_with_what_was_written<T, H: MessageHandler<T>>(
    turn: Turn<T, H>,
    put: Result<usize, IoError>,
    later: Turn<T, H>,
)
    requires
        call_ensures(Turn::<T, H>::write, (turn, put), later),
    ensures
        turn.connection().writes(put, later.connection()),
        later.settles(),
{
}

/// A connection outlives its turn exactly where it was to be registered again
/// and that was done, and is unchanged by the end of the turn.
pub proof fn registered_connections_live_on<T, H: MessageHandler<T>>(
    turn: Turn<T, H>,
    registered: bool,
    conn: Option<Conn<T, H>>,
)
    requires
        call_ensures(Turn::<T, H>::finish, (turn, registered), conn),
    ensures
        conn is Some <==> turn.due() is Reregister && registered,
        conn matches Some(kept) ==> kept == turn.connection(),
{
}

/// Whatever is done to the transport that a turn lends stays done, and nothing
/// else of the turn changes.
pub proof fn lent_transports_come_back<T, H: MessageHandler<T>>()
    ensures
        forall|turn: &mut Turn<T, H>, transport: &mut T| #[trigger]
            call_ensures(Turn::<T, H>::transport_mut, (turn,), transport) ==> {
                &&& *transport == turn.connection().port()
                &&& final(turn).connection().port() == *final(transport)
                &&& final(turn).connection().status() == turn.connection().status()
                &&& final(turn).connection().buffer() == turn.connection().buffer()
                &&& final(turn).due() == turn.due()
            },
{
}

/// What a turn and a connection show of themselves is what they hold.
pub proof fn what_is_shown_is_what_is_held<T, H: MessageHandler<T>>(
    turn: Turn<T, H>,
    stage: Stage,
    conn: Conn<T, H>,
    state: StateOf<T, H>,
    transport: T,
)
    ensures
        call_ensures(Turn::<T, H>::stage, (&turn,), stage) ==> turn.due() == stage,
        call_ensures(Turn::<T, H>::conn, (&turn,), &conn) ==> turn.connection() == conn,
        call_ensures(Conn::<T, H>::state, (&conn,), &state) ==> conn.status() == state,
        call_ensures(Conn::<T, H>::transport, (&conn,), &transport) ==> conn.port() == transport,
{
}

/// A handler that wants to write on after it wrote is asked again: the turn
/// ends with the transport registered for writable events.
pub proof fn writers_are_asked_again<T, H: MessageHandler<T>>(
    turn: Turn<T, H>,
    later: Turn<T, H>,
    handler: H,
)
    requires
        call_ensures(Turn::<T, H>::on_writable, (turn,), later),
        turn.connection().status() matches State::Http1(message) && message.writing is Ready
            && message.handler == handler,
        forall|asked: &mut H, lent: &mut Encoder<'_, EncoderOf<T, H>, T>, next: Next|
            #[trigger] call_ensures(H::on_encode, (asked, lent), next) && *asked == handler
                ==> next@ == Next_::Write || next@ == Next_::ReadWrite,
    ensures
        later.due() matches Stage::Reregister(events) && event_kinds(events).contains(WRITABLE),
{
}

} // verus!
