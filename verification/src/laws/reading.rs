//! What becomes of the bytes that come in while no message is under way.
use crate::conn::{Conn, IoError};
use crate::handler::{DecoderOf, IncomingOf, MessageHandler, MessageHandlerFactory};
use crate::message::{BodyDecoder, Decoder, Http1Message, MessageHead, Trans};
use crate::next::{Next, Next_};
use crate::state::{Reading, State};
use vstd::prelude::*;

verus! {

/// A call to read is a step with a handler that the factory made, or with none
/// and the factory as it was.
pub proof fn reads_are_steps<
    T,
    H: MessageHandler<T>,
    F: MessageHandlerFactory<T, Output = H>,
>(before: Conn<T, H>)
    ensures
        forall|factory: &mut F, got: Result<Vec<u8>, IoError>, end: Option<Conn<T, H>>|
            #[trigger] call_ensures(Conn::<T, H>::read::<F>, (before, factory, got), end) ==> {
                ||| before.reads(got, None, end) && *final(factory) == *factory
                ||| exists|handler: H, maker: &mut F|
                    {
                        &&& #[trigger] before.reads(got, Some(handler), end)
                        &&& #[trigger] call_ensures(F::create, (maker,), handler)
                        &&& *maker == *factory
                        &&& *final(maker) == *final(factory)
                    }
            },
{
}

/// Where nothing was read nothing is made and nothing is lost. The connection
/// waits on where reading may work later, and is over at the end of the
/// transport or where that failed for good.
pub proof fn nothing_comes_of_nothing<T, H: MessageHandler<T>>(
    before: Conn<T, H>,
    got: Result<Vec<u8>, IoError>,
    made: Option<H>,
    end: Option<Conn<T, H>>,
)
    requires
        before.reads(got, made, end),
        got matches Ok(bytes) ==> bytes@.len() == 0,
    ensures
        made is None,
        end matches Some(after) && {
            &&& after.buffer()@ == before.buffer()@
            &&& after.port() == before.port()
            &&& match got {
                Err(IoError::WouldBlock) => after.status() is Init,
                Err(IoError::Interrupted) => after.status() is Init,
                Err(IoError::Other) => after.status() is Closed,
                Ok(_) => after.status() is Closed,
            }
        },
{
}

/// Bytes that cannot be the front of a head close the connection.
pub proof fn bad_heads_close<T, H: MessageHandler<T>>(
    before: Conn<T, H>,
    bytes: Vec<u8>,
    made: Option<H>,
    end: Option<Conn<T, H>>,
)
    requires
        before.reads(Ok(bytes), made, end),
        bytes@.len() > 0,
        forall|
            data: &[u8],
            parsed: Result<
                Option<(IncomingOf<T, H>, usize)>,
                <H::Message as Http1Message>::Error,
            >,
        |
            data@ == before.buffer()@ + bytes@ && #[trigger] call_ensures(
                <H::Message as Http1Message>::parse,
                (data,),
                parsed,
            ) ==> (parsed is Err),
    ensures
        made is None,
        end matches Some(after) && {
            &&& after.status() is Closed
            &&& after.buffer()@ == before.buffer()@ + bytes@
            &&& after.port() == before.port()
        },
{
}

/// Bytes that do not hold a whole head are kept for when more come, up to a
/// size from which on the connection closes.
pub proof fn unfinished_heads_are_kept<T, H: MessageHandler<T>>(
    before: Conn<T, H>,
    bytes: Vec<u8>,
    made: Option<H>,
    end: Option<Conn<T, H>>,
)
    requires
        before.reads(Ok(bytes), made, end),
        bytes@.len() > 0,
        forall|
            data: &[u8],
            parsed: Result<
                Option<(IncomingOf<T, H>, usize)>,
                <H::Message as Http1Message>::Error,
            >,
        |
            data@ == before.buffer()@ + bytes@ && #[trigger] call_ensures(
                <H::Message as Http1Message>::parse,
                (data,),
                parsed,
            ) ==> (parsed matches Ok(None)),
    ensures
        made is None,
        end matches Some(after) && {
            &&& after.buffer()@ == before.buffer()@ + bytes@
            &&& after.port() == before.port()
            &&& if before.buffer()@.len() + bytes@.len() < 8192 + 4096 * 100 {
                after.status() is Init
            } else {
                after.status() is Closed
            }
        },
{
}

/// A head without framing for its body closes the connection before a handler
/// is made.
pub proof fn unframed_heads_close<T, H: MessageHandler<T>>(
    before: Conn<T, H>,
    bytes: Vec<u8>,
    made: Option<H>,
    end: Option<Conn<T, H>>,
    head: IncomingOf<T, H>,
    len: usize,
)
    requires
        before.reads(Ok(bytes), made, end),
        bytes@.len() > 0,
        forall|
            data: &[u8],
            parsed: Result<
                Option<(IncomingOf<T, H>, usize)>,
                <H::Message as Http1Message>::Error,
            >,
        |
            data@ == before.buffer()@ + bytes@ && #[trigger] call_ensures(
                <H::Message as Http1Message>::parse,
                (data,),
                parsed,
            ) ==> (parsed matches Ok(Some(found)) && found == (head, len)),
        forall|framing: Result<DecoderOf<T, H>, <H::Message as Http1Message>::Error>|
            #[trigger] call_ensures(<H::Message as Http1Message>::decoder, (&head,), framing)
                ==> (framing is Err),
    ensures
        made is None,
        end matches Some(after) && {
            &&& after.status() is Closed
            &&& after.buffer()@ == if len <= before.buffer()@.len() + bytes@.len() {
                (before.buffer()@ + bytes@).skip(len as int)
            } else {
                Seq::empty()
            }
            &&& after.port() == before.port()
        },
{
}

/// A handler that wants nothing at all with a head leaves no connection, and
/// one that is done with it leaves a closed one, with what came behind the
/// head.
pub proof fn unwanted_messages_end<T, H: MessageHandler<T>>(
    before: Conn<T, H>,
    bytes: Vec<u8>,
    made: Option<H>,
    end: Option<Conn<T, H>>,
    head: IncomingOf<T, H>,
    len: usize,
    decoder: DecoderOf<T, H>,
    wish: Next_,
)
    requires
        before.reads(Ok(bytes), made, end),
        bytes@.len() > 0,
        forall|
            data: &[u8],
            parsed: Result<
                Option<(IncomingOf<T, H>, usize)>,
                <H::Message as Http1Message>::Error,
            >,
        |
            data@ == before.buffer()@ + bytes@ && #[trigger] call_ensures(
                <H::Message as Http1Message>::parse,
                (data,),
                parsed,
            ) ==> (parsed matches Ok(Some(found)) && found == (head, len)),
        forall|framing: Result<DecoderOf<T, H>, <H::Message as Http1Message>::Error>|
            #[trigger] call_ensures(<H::Message as Http1Message>::decoder, (&head,), framing)
                ==> (framing matches Ok(found) && found == decoder),
        wish == Next_::Wait || wish == Next_::End || wish == Next_::Remove,
        forall|asked: &mut H, next: Next|
            made == Some(*asked) && #[trigger] call_ensures(H::on_incoming, (asked, head), next)
                ==> next@ == wish,
    ensures
        made is Some,
        wish == Next_::Wait <==> end is None,
        end matches Some(after) ==> {
            &&& after.status() is Closed
            &&& after.buffer()@ == if len <= before.buffer()@.len() + bytes@.len() {
                (before.buffer()@ + bytes@).skip(len as int)
            } else {
                Seq::empty()
            }
            &&& after.port() == before.port()
        },
{
}

/// Where the handler of a new message wants to write, the head that goes out
/// is up and the body that comes in is put off, or left behind where it says
/// that it is over. The connection holds the bytes behind the head.
pub proof fn writers_are_begun<T, H: MessageHandler<T>>(
    before: Conn<T, H>,
    bytes: Vec<u8>,
    made: Option<H>,
    end: Option<Conn<T, H>>,
    head: IncomingOf<T, H>,
    len: usize,
    decoder: DecoderOf<T, H>,
    keep_alive: bool,
    handler: H,
    wish: Next_,
)
    requires
        before.reads(Ok(bytes), made, end),
        bytes@.len() > 0,
        forall|
            data: &[u8],
            parsed: Result<
                Option<(IncomingOf<T, H>, usize)>,
                <H::Message as Http1Message>::Error,
            >,
        |
            data@ == before.buffer()@ + bytes@ && #[trigger] call_ensures(
                <H::Message as Http1Message>::parse,
                (data,),
                parsed,
            ) ==> (parsed matches Ok(Some(found)) && found == (head, len)),
        forall|framing: Result<DecoderOf<T, H>, <H::Message as Http1Message>::Error>|
            #[trigger] call_ensures(<H::Message as Http1Message>::decoder, (&head,), framing)
                ==> (framing matches Ok(found) && found == decoder),
        forall|kept: bool| #[trigger]
            call_ensures(<IncomingOf<T, H> as MessageHead>::should_keep_alive, (&head,), kept)
                ==> kept == keep_alive,
        wish == Next_::Write,
        forall|asked: &mut H, next: Next|
            made == Some(*asked) && #[trigger] call_ensures(H::on_incoming, (asked, head), next)
                ==> next@ == wish && *final(asked) == handler,
    ensures
        made is Some,
        end matches Some(after) && {
            &&& after.buffer()@ == if len <= before.buffer()@.len() + bytes@.len() {
                (before.buffer()@ + bytes@).skip(len as int)
            } else {
                Seq::empty()
            }
            &&& after.port() == before.port()
            &&& after.status() matches State::Http1(later)
            &&& later.handler == handler
            &&& later.keep_alive == keep_alive
            &&& later.writing is Head
            &&& {
                ||| later.reading == Reading::Wait(decoder) && call_ensures(
                    <DecoderOf<T, H> as BodyDecoder>::is_eof,
                    (&decoder,),
                    false,
                )
                ||| later.reading is KeepAlive && keep_alive && call_ensures(
                    <DecoderOf<T, H> as BodyDecoder>::is_eof,
                    (&decoder,),
                    true,
                )
                ||| later.reading is Closed && !keep_alive && call_ensures(
                    <DecoderOf<T, H> as BodyDecoder>::is_eof,
                    (&decoder,),
                    true,
                )
            }
        },
{
}

/// Where the handler of a new message wants to read, whether or not it also
/// wants to write, it gets to read from the body at once: it is lent all the
/// bytes behind the head, ahead of the transport. The connection keeps what
/// it leaves of them and goes on as it answers. The head that goes out is up
/// exactly where the handler wanted to write.
pub proof fn readers_are_begun<T, H: MessageHandler<T>>(
    before: Conn<T, H>,
    bytes: Vec<u8>,
    made: Option<H>,
    end: Option<Conn<T, H>>,
    head: IncomingOf<T, H>,
    len: usize,
    decoder: DecoderOf<T, H>,
    keep_alive: bool,
    handler: H,
    wish: Next_,
)
    requires
        before.reads(Ok(bytes), made, end),
        bytes@.len() > 0,
        forall|
            data: &[u8],
            parsed: Result<
                Option<(IncomingOf<T, H>, usize)>,
                <H::Message as Http1Message>::Error,
            >,
        |
            data@ == before.buffer()@ + bytes@ && #[trigger] call_ensures(
                <H::Message as Http1Message>::parse,
                (data,),
                parsed,
            ) ==> (parsed matches Ok(Some(found)) && found == (head, len)),
        forall|framing: Result<DecoderOf<T, H>, <H::Message as Http1Message>::Error>|
            #[trigger] call_ensures(<H::Message as Http1Message>::decoder, (&head,), framing)
                ==> (framing matches Ok(found) && found == decoder),
        forall|kept: bool| #[trigger]
            call_ensures(<IncomingOf<T, H> as MessageHead>::should_keep_alive, (&head,), kept)
                ==> kept == keep_alive,
        wish == Next_::Read || wish == Next_::ReadWrite,
        forall|asked: &mut H, next: Next|
            made == Some(*asked) && #[trigger] call_ensures(H::on_incoming, (asked, head), next)
                ==> next@ == wish && *final(asked) == handler,
    ensures
        made is Some,
        end matches Some(after) && exists|
            asked: &mut H,
            lent: &mut Decoder<'_, DecoderOf<T, H>, T>,
            next: Next,
        |
            {
                &&& #[trigger] call_ensures(H::on_decode, (asked, lent), next)
                &&& *asked == handler
                &&& *(*lent).decoder == decoder
                &&& match (*lent).trans {
                    Trans::Port(port) => {
                        &&& before.buffer()@.len() + bytes@.len() <= len
                        &&& after.buffer()@.len() == 0
                        &&& *port == before.port()
                        &&& *final(port) == after.port()
                    },
                    Trans::Buf(ahead, port) => {
                        &&& len < before.buffer()@.len() + bytes@.len()
                        &&& ahead@ == (before.buffer()@ + bytes@).skip(len as int)
                        &&& *final(ahead) == after.buffer()
                        &&& *port == before.port()
                        &&& *final(port) == after.port()
                    },
                }
                &&& match after.status() {
                    State::Init => false,
                    State::Closed => next@ == Next_::End || next@ == Next_::Remove,
                    State::Http1(later) => {
                        &&& next@ != Next_::End && next@ != Next_::Remove
                        &&& later.handler == *final(asked)
                        &&& later.keep_alive == keep_alive
                        &&& if wish == Next_::Read {
                            later.writing is Init
                        } else {
                            later.writing is Head
                        }
                        &&& if next@ == Next_::Write {
                            ||| later.reading == Reading::Wait(*final((*lent).decoder))
                                && call_ensures(
                                <DecoderOf<T, H> as BodyDecoder>::is_eof,
                                (&*final((*lent).decoder),),
                                false,
                            )
                            ||| later.reading is KeepAlive && keep_alive && call_ensures(
                                <DecoderOf<T, H> as BodyDecoder>::is_eof,
                                (&*final((*lent).decoder),),
                                true,
                            )
                            ||| later.reading is Closed && !keep_alive && call_ensures(
                                <DecoderOf<T, H> as BodyDecoder>::is_eof,
                                (&*final((*lent).decoder),),
                                true,
                            )
                        } else {
                            later.reading == Reading::Body(*final((*lent).decoder))
                        }
                    },
                }
            },
{
}

/// No byte behind a head is lost: a handler that leaves the bytes that it is
/// lent as they are leaves all of them to the connection, whatever it answered
/// to the head. The same holds where it is not lent any.
pub proof fn bytes_behind_a_head_stay<T, H: MessageHandler<T>>(
    before: Conn<T, H>,
    bytes: Vec<u8>,
    made: Option<H>,
    end: Option<Conn<T, H>>,
    head: IncomingOf<T, H>,
    len: usize,
)
    requires
        before.reads(Ok(bytes), made, end),
        bytes@.len() > 0,
        forall|
            data: &[u8],
            parsed: Result<
                Option<(IncomingOf<T, H>, usize)>,
                <H::Message as Http1Message>::Error,
            >,
        |
            data@ == before.buffer()@ + bytes@ && #[trigger] call_ensures(
                <H::Message as Http1Message>::parse,
                (data,),
                parsed,
            ) ==> (parsed matches Ok(Some(found)) && found == (head, len)),
        forall|asked: &mut H, lent: &mut Decoder<'_, DecoderOf<T, H>, T>, next: Next|
            #[trigger] call_ensures(H::on_decode, (asked, lent), next) ==> ((
            *lent).trans matches Trans::Buf(ahead, _) ==> *final(ahead) == *ahead),
    ensures
        end matches Some(after) ==> after.buffer()@ == if len <= before.buffer()@.len() + bytes@.len() {
            (before.buffer()@ + bytes@).skip(len as int)
        } else {
            Seq::empty()
        },
{
}

} // verus!
