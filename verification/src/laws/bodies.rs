//! What becomes of the bodies of a message over the steps of a connection.
use super::steps;
use crate::conn::{Conn, IoError};
use crate::handler::{DecoderOf, EncoderOf, MessageHandler, OutgoingOf};
use crate::message::{BodyDecoder, BodyEncoder, Decoder, Encoder};
use crate::next::{Next, Next_, Reg};
use crate::state::{Chunk, Http1, Reading, State, Writing};
use vstd::prelude::*;

verus! {

/// While both bodies are under way, what a handler answers after it read is
/// what the connection asks the event loop for.
pub proof fn readers_are_registered<T, H: MessageHandler<T>>(
    before: Conn<T, H>,
    after: Conn<T, H>,
    message: Http1<H, DecoderOf<T, H>, EncoderOf<T, H>>,
    wish: Next_,
)
    requires
        before.decodes(after),
        before.status() == State::Http1(message),
        message.writing is Ready || message.writing is Wait,
        wish == Next_::Read || wish == Next_::Write || wish == Next_::ReadWrite,
        forall|asked: &mut H, lent: &mut Decoder<'_, DecoderOf<T, H>, T>, next: Next|
            #[trigger] call_ensures(H::on_decode, (asked, lent), next) && *asked == message.handler
                ==> next@ == wish,
    ensures
        forall|reg: Reg| #[trigger]
            call_ensures(Conn::<T, H>::interest, (&after,), reg) ==> reg == match wish {
                Next_::Read => Reg::Read,
                Next_::Write => Reg::Write,
                _ => Reg::ReadWrite,
            },
{
}

/// While both bodies are under way, what a handler answers after it wrote is
/// what the connection asks the event loop for.
pub proof fn writers_are_registered<T, H: MessageHandler<T>>(
    before: Conn<T, H>,
    after: Conn<T, H>,
    message: Http1<H, DecoderOf<T, H>, EncoderOf<T, H>>,
    wish: Next_,
)
    requires
        before.encodes(after),
        before.status() == State::Http1(message),
        message.reading is Body || message.reading is Wait,
        wish == Next_::Read || wish == Next_::Write || wish == Next_::ReadWrite,
        forall|asked: &mut H, lent: &mut Encoder<'_, EncoderOf<T, H>, T>, next: Next|
            #[trigger] call_ensures(H::on_encode, (asked, lent), next) && *asked == message.handler
                ==> next@ == wish,
    ensures
        forall|reg: Reg| #[trigger]
            call_ensures(Conn::<T, H>::interest, (&after,), reg) ==> reg == match wish {
                Next_::Read => Reg::Read,
                Next_::Write => Reg::Write,
                _ => Reg::ReadWrite,
            },
{
}

/// A message goes on after its handler read, unless the handler was done with
/// it or gave the connection up. Where it wants to read on, the body is being
/// read as the handler left it.
pub proof fn readers_keep_their_message<T, H: MessageHandler<T>>(
    before: Conn<T, H>,
    after: Conn<T, H>,
    message: Http1<H, DecoderOf<T, H>, EncoderOf<T, H>>,
)
    requires
        before.decodes(after),
        before.status() == State::Http1(message),
        forall|asked: &mut H, lent: &mut Decoder<'_, DecoderOf<T, H>, T>, next: Next|
            #[trigger] call_ensures(H::on_decode, (asked, lent), next) && *asked == message.handler
                ==> next@ != Next_::End && next@ != Next_::Remove,
    ensures
        after.status() matches State::Http1(later) && later.keep_alive == message.keep_alive,
        exists|asked: &mut H, lent: &mut Decoder<'_, DecoderOf<T, H>, T>, next: Next|
            {
                &&& #[trigger] call_ensures(H::on_decode, (asked, lent), next)
                &&& *asked == message.handler
                &&& message.reading == Reading::Body(*(*lent).decoder)
                &&& after.status() matches State::Http1(later)
                &&& later.handler == *final(asked)
                &&& next@ == Next_::Read || next@ == Next_::ReadWrite || next@ == Next_::Wait
                    ==> later.reading == Reading::Body(*final((*lent).decoder))
            },
{
}

/// A message goes on after its handler wrote, unless the handler was done with
/// it or gave the connection up. Where it wants to write on, the body is being
/// written as the handler left it.
pub proof fn writers_keep_their_message<T, H: MessageHandler<T>>(
    before: Conn<T, H>,
    after: Conn<T, H>,
    message: Http1<H, DecoderOf<T, H>, EncoderOf<T, H>>,
)
    requires
        before.encodes(after),
        before.status() == State::Http1(message),
        forall|asked: &mut H, lent: &mut Encoder<'_, EncoderOf<T, H>, T>, next: Next|
            #[trigger] call_ensures(H::on_encode, (asked, lent), next) && *asked == message.handler
                ==> next@ != Next_::End && next@ != Next_::Remove,
    ensures
        after.status() matches State::Http1(later) && later.keep_alive == message.keep_alive,
        exists|asked: &mut H, lent: &mut Encoder<'_, EncoderOf<T, H>, T>, next: Next|
            {
                &&& #[trigger] call_ensures(H::on_encode, (asked, lent), next)
                &&& *asked == message.handler
                &&& message.writing == Writing::Ready(*(*lent).encoder)
                &&& after.status() matches State::Http1(later)
                &&& later.handler == *final(asked)
                &&& next@ == Next_::Write || next@ == Next_::ReadWrite || next@ == Next_::Wait
                    ==> later.writing == Writing::Ready(*final((*lent).encoder))
            },
{
}

/// Filling in the head that goes out does not end the body that comes in: a
/// body that does not say that it is over is still there afterwards, unless
/// the handler closed the connection.
pub proof fn heads_leave_the_body_alone<T, H: MessageHandler<T>>(
    before: Conn<T, H>,
    after: Conn<T, H>,
    message: Http1<H, DecoderOf<T, H>, EncoderOf<T, H>>,
    decoder: DecoderOf<T, H>,
)
    requires
        before.heads(after),
        before.status() == State::Http1(message),
        message.reading == Reading::Body(decoder) || message.reading == Reading::Wait(decoder),
        !call_ensures(<DecoderOf<T, H> as BodyDecoder>::is_eof, (&decoder,), true),
    ensures
        !(after.status() is Init),
        after.status() matches State::Http1(later) ==> later.reading == Reading::Body(decoder)
            || later.reading == Reading::Wait(decoder),
{
}

/// A handler that fills in a head keeps its message, unless it was done with
/// it or gave the connection up.
pub proof fn heads_keep_their_message<T, H: MessageHandler<T>>(
    before: Conn<T, H>,
    after: Conn<T, H>,
    message: Http1<H, DecoderOf<T, H>, EncoderOf<T, H>>,
)
    requires
        before.heads(after),
        before.status() == State::Http1(message),
        forall|asked: &mut H, filled: &mut OutgoingOf<T, H>, next: Next|
            #[trigger] call_ensures(H::on_outgoing, (asked, filled), next) && *asked
                == message.handler ==> next@ != Next_::End && next@ != Next_::Remove,
    ensures
        after.status() matches State::Http1(later) && (later.keep_alive ==> message.keep_alive),
{
}

/// What the transport does with the bytes of a head: where it failed for good
/// the connection is over, where it may work later nothing changes, and
/// otherwise the bytes that it took are gone. Only once all are gone the
/// answer that the handler gave for then takes effect. Nothing that was read
/// ahead is touched.
pub proof fn written_heads_take_effect<T, H: MessageHandler<T>>(
    before: Conn<T, H>,
    put: Result<usize, IoError>,
    after: Conn<T, H>,
    message: Http1<H, DecoderOf<T, H>, EncoderOf<T, H>>,
    chunk: Chunk<EncoderOf<T, H>>,
)
    requires
        before.writes(put, after),
        before.status() == State::Http1(message),
        message.writing == Writing::Chunk(chunk),
        chunk.pos <= chunk.buf@.len(),
        put matches Ok(n) ==> chunk.pos + n <= chunk.buf@.len(),
    ensures
        after.buffer() == before.buffer(),
        after.port() == before.port(),
        match put {
            Err(IoError::WouldBlock) => after.status() == before.status(),
            Err(IoError::Interrupted) => after.status() == before.status(),
            Err(IoError::Other) => after.status() is Closed,
            Ok(n) => {
                let sent = Writing::Chunk(Chunk { pos: (chunk.pos + n) as usize, ..chunk });
                let next = if chunk.pos + n < chunk.buf@.len() {
                    Next_::Wait
                } else {
                    chunk.next.1@
                };
                match after.status() {
                    State::Init => false,
                    State::Closed => next == Next_::End || next == Next_::Remove,
                    State::Http1(later) => {
                        &&& next != Next_::End && next != Next_::Remove
                        &&& later.handler == message.handler
                        &&& later.keep_alive == message.keep_alive
                        &&& later.writing == sent
                        &&& if next == Next_::Wait {
                            later.reading == message.reading
                        } else if next == Next_::Write {
                            match message.reading {
                                Reading::Body(decoder) => {
                                    ||| later.reading == Reading::Wait(decoder) && call_ensures(
                                        <DecoderOf<T, H> as BodyDecoder>::is_eof,
                                        (&decoder,),
                                        false,
                                    )
                                    ||| later.reading is KeepAlive && message.keep_alive
                                        && call_ensures(
                                        <DecoderOf<T, H> as BodyDecoder>::is_eof,
                                        (&decoder,),
                                        true,
                                    )
                                    ||| later.reading is Closed && !message.keep_alive
                                        && call_ensures(
                                        <DecoderOf<T, H> as BodyDecoder>::is_eof,
                                        (&decoder,),
                                        true,
                                    )
                                },
                                _ => later.reading == message.reading,
                            }
                        } else {
                            match message.reading {
                                Reading::Wait(decoder) => later.reading == Reading::Body(decoder),
                                _ => later.reading == message.reading,
                            }
                        }
                    },
                }
            },
        },
{
}

/// The bytes of a head that are pending are those that the transport took, in
/// order, and behind them those that are pending afterwards.
pub proof fn pending_bytes_go_out_in_order<T, H: MessageHandler<T>>(
    before: Conn<T, H>,
    pending: &[u8],
    n: usize,
    after: Conn<T, H>,
    left: &[u8],
)
    requires
        before.wf(),
        after.wf(),
        before.status() matches State::Http1(message) && message.writing is Chunk,
        after.status() matches State::Http1(later) && later.writing is Chunk,
        call_ensures(Conn::<T, H>::pending, (&before,), pending),
        n <= pending@.len(),
        call_ensures(Conn::<T, H>::write, (before, Ok(n)), after),
        call_ensures(Conn::<T, H>::pending, (&after,), left),
    ensures
        pending@ == pending@.take(n as int) + left@,
{
    super::heads_go_out_in_order(before, n, after);
}

/// The bytes that are pending are those of the head from the place on up to
/// which it was written.
pub proof fn pending_bytes_end_the_head<T, H: MessageHandler<T>>(conn: Conn<T, H>, pending: &[u8])
    requires
        call_ensures(Conn::<T, H>::pending, (&conn,), pending),
    ensures
        conn.status() matches State::Http1(message) ==> (message.writing matches Writing::Chunk(
            chunk,
        ) ==> (chunk.pos <= chunk.buf@.len() ==> pending@ == chunk.buf@.subrange(
            chunk.pos as int,
            chunk.buf@.len() as int,
        ))),
{
}

/// A step leaves the body that comes in behind, or the message that it belongs
/// to, for another message only where the body said that it was over: as it
/// was before the step, or as the handler left it where the handler read.
pub proof fn bodies_are_read_to_their_end<T, H: MessageHandler<T>>(
    before: Conn<T, H>,
    after: Conn<T, H>,
    message: Http1<H, DecoderOf<T, H>, EncoderOf<T, H>>,
)
    requires
        steps(before, after),
        before.status() == State::Http1(message),
        !(message.reading is KeepAlive),
        match after.status() {
            State::Init => true,
            State::Http1(later) => later.reading is KeepAlive,
            State::Closed => false,
        },
    ensures
        message.reading matches Reading::Body(decoder) && {
            ||| call_ensures(<DecoderOf<T, H> as BodyDecoder>::is_eof, (&decoder,), true)
            ||| before.decodes(after) && exists|
                asked: &mut H,
                lent: &mut Decoder<'_, DecoderOf<T, H>, T>,
                next: Next,
            |
                {
                    &&& #[trigger] call_ensures(H::on_decode, (asked, lent), next)
                    &&& *asked == message.handler
                    &&& *(*lent).decoder == decoder
                    &&& call_ensures(
                        <DecoderOf<T, H> as BodyDecoder>::is_eof,
                        (&*final((*lent).decoder),),
                        true,
                    )
                }
        },
{
}

/// While the bodies that come in never say that they are over, a connection
/// does not get past the message that is under way, through however many
/// steps.
pub proof fn unread_bodies_are_never_left_behind<T, H: MessageHandler<T>>(
    conns: Seq<Conn<T, H>>,
    i: int,
)
    requires
        0 <= i < conns.len(),
        forall|j: int| 0 <= j < conns.len() - 1 ==> steps(#[trigger] conns[j], conns[j + 1]),
        conns[0].status() matches State::Http1(message) && !(message.reading is KeepAlive),
        forall|decoder: DecoderOf<T, H>, over: bool| #[trigger]
            call_ensures(<DecoderOf<T, H> as BodyDecoder>::is_eof, (&decoder,), over) ==> !over,
    ensures
        !(conns[i].status() is Init),
        conns[i].status() matches State::Http1(later) ==> !(later.reading is KeepAlive),
    decreases i,
{
    if i > 0 {
        unread_bodies_are_never_left_behind(conns, i - 1);
        assert(steps(conns[i - 1], conns[i]));
    }
}

/// While the bodies that go out never say that they are over, a connection
/// does not get past the message that is under way, through however many
/// steps.
pub proof fn unwritten_bodies_are_never_left_behind<T, H: MessageHandler<T>>(
    conns: Seq<Conn<T, H>>,
    i: int,
)
    requires
        0 <= i < conns.len(),
        forall|j: int| 0 <= j < conns.len() - 1 ==> steps(#[trigger] conns[j], conns[j + 1]),
        conns[0].status() matches State::Http1(message) && !(message.writing is KeepAlive),
        forall|encoder: EncoderOf<T, H>, over: bool| #[trigger]
            call_ensures(<EncoderOf<T, H> as BodyEncoder>::is_eof, (&encoder,), over) ==> !over,
    ensures
        !(conns[i].status() is Init),
        conns[i].status() matches State::Http1(later) ==> !(later.writing is KeepAlive),
    decreases i,
{
    if i > 0 {
        unwritten_bodies_are_never_left_behind(conns, i - 1);
        assert(steps(conns[i - 1], conns[i]));
    }
}

} // verus!
