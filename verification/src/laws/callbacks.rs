//! What each step of a connection does, in terms of what its handler was lent
//! and what it answered.
use crate::conn::{Conn, IoError};
use crate::handler::{DecoderOf, EncoderOf, MessageHandler, OutgoingOf};
use crate::message::{
    BodyDecoder, BodyEncoder, Decoder, Encoder, Http1Message, MessageHead, Trans, WriteBuf,
};
use crate::next::{Next, Next_};
use crate::state::{Chunk, Http1, Reading, State, Writing};
use vstd::prelude::*;

verus! {

/// The steps of a connection are the calls that make them.
pub proof fn calls_are_steps<T, H: MessageHandler<T>>(before: Conn<T, H>, after: Conn<T, H>)
    ensures
        call_ensures(Conn::<T, H>::decode, (before,), after) ==> before.decodes(after),
        call_ensures(Conn::<T, H>::head, (before,), after) ==> before.heads(after),
        call_ensures(Conn::<T, H>::encode, (before,), after) ==> before.encodes(after),
        forall|put: Result<usize, IoError>|
            #[trigger] call_ensures(Conn::<T, H>::write, (before, put), after) ==> before.writes(
                put,
                after,
            ),
{
}

/// A handler that reads is lent the framing of the body that comes in, and
/// the transport behind whatever was read ahead. The connection keeps what
/// the handler leaves of all that, and goes on as it answers.
pub proof fn reading_goes_on_as_answered<T, H: MessageHandler<T>>(
    before: Conn<T, H>,
    after: Conn<T, H>,
    message: Http1<H, DecoderOf<T, H>, EncoderOf<T, H>>,
    body: DecoderOf<T, H>,
)
    requires
        before.decodes(after),
        before.status() == State::Http1(message),
        message.reading == Reading::Body(body),
    ensures
        exists|asked: &mut H, lent: &mut Decoder<'_, DecoderOf<T, H>, T>, next: Next|
            {
                &&& #[trigger] call_ensures(H::on_decode, (asked, lent), next)
                &&& *asked == message.handler
                &&& *(*lent).decoder == body
                &&& match (*lent).trans {
                    Trans::Port(port) => {
                        &&& before.buffer()@.len() == 0
                        &&& after.buffer() == before.buffer()
                        &&& *port == before.port()
                        &&& *final(port) == after.port()
                    },
                    Trans::Buf(ahead, port) => {
                        &&& before.buffer()@.len() > 0
                        &&& *ahead == before.buffer()
                        &&& *final(ahead) == after.buffer()
                        &&& *port == before.port()
                        &&& *final(port) == after.port()
                    },
                }
                &&& match next@ {
                    Next_::Remove => after.status() is Closed,
                    Next_::End => match after.status() {
                        State::Http1(_) => false,
                        State::Init => {
                            &&& message.keep_alive
                            &&& call_ensures(
                                <DecoderOf<T, H> as BodyDecoder>::is_eof,
                                (&*final((*lent).decoder),),
                                true,
                            )
                            &&& match message.writing {
                                Writing::KeepAlive => true,
                                Writing::Ready(encoder) => call_ensures(
                                    <EncoderOf<T, H> as BodyEncoder>::is_eof,
                                    (&encoder,),
                                    true,
                                ),
                                _ => false,
                            }
                        },
                        State::Closed => {
                            ||| !message.keep_alive
                            ||| call_ensures(
                                <DecoderOf<T, H> as BodyDecoder>::is_eof,
                                (&*final((*lent).decoder),),
                                false,
                            )
                            ||| match message.writing {
                                Writing::KeepAlive => false,
                                Writing::Ready(encoder) => call_ensures(
                                    <EncoderOf<T, H> as BodyEncoder>::is_eof,
                                    (&encoder,),
                                    false,
                                ),
                                _ => true,
                            }
                        },
                    },
                    Next_::Wait => after.status() == State::Http1(
                        Http1 {
                            handler: *final(asked),
                            reading: Reading::Body(*final((*lent).decoder)),
                            writing: message.writing,
                            keep_alive: message.keep_alive,
                        },
                    ),
                    Next_::Read => {
                        &&& after.status() matches State::Http1(later)
                        &&& later.handler == *final(asked)
                        &&& later.keep_alive == message.keep_alive
                        &&& later.reading == Reading::Body(*final((*lent).decoder))
                        &&& match message.writing {
                            Writing::Ready(encoder) => {
                                ||| later.writing == Writing::Wait(encoder) && call_ensures(
                                    <EncoderOf<T, H> as BodyEncoder>::is_eof,
                                    (&encoder,),
                                    false,
                                )
                                ||| later.writing is KeepAlive && message.keep_alive
                                    && call_ensures(
                                    <EncoderOf<T, H> as BodyEncoder>::is_eof,
                                    (&encoder,),
                                    true,
                                )
                                ||| later.writing is Closed && !message.keep_alive && call_ensures(
                                    <EncoderOf<T, H> as BodyEncoder>::is_eof,
                                    (&encoder,),
                                    true,
                                )
                            },
                            _ => later.writing == message.writing,
                        }
                    },
                    Next_::Write => {
                        &&& after.status() matches State::Http1(later)
                        &&& later.handler == *final(asked)
                        &&& later.keep_alive == message.keep_alive
                        &&& {
                            ||| later.reading == Reading::Wait(*final((*lent).decoder))
                                && call_ensures(
                                <DecoderOf<T, H> as BodyDecoder>::is_eof,
                                (&*final((*lent).decoder),),
                                false,
                            )
                            ||| later.reading is KeepAlive && message.keep_alive && call_ensures(
                                <DecoderOf<T, H> as BodyDecoder>::is_eof,
                                (&*final((*lent).decoder),),
                                true,
                            )
                            ||| later.reading is Closed && !message.keep_alive && call_ensures(
                                <DecoderOf<T, H> as BodyDecoder>::is_eof,
                                (&*final((*lent).decoder),),
                                true,
                            )
                        }
                        &&& match message.writing {
                            Writing::Wait(encoder) => later.writing == Writing::Ready(encoder),
                            _ => later.writing == message.writing,
                        }
                    },
                    Next_::ReadWrite => {
                        &&& after.status() matches State::Http1(later)
                        &&& later.handler == *final(asked)
                        &&& later.keep_alive == message.keep_alive
                        &&& later.reading == Reading::Body(*final((*lent).decoder))
                        &&& match message.writing {
                            Writing::Wait(encoder) => later.writing == Writing::Ready(encoder),
                            _ => later.writing == message.writing,
                        }
                    },
                }
            },
{
}

/// A handler that writes is lent the framing of the body that goes out and
/// the transport. The connection keeps what the handler leaves of both, and
/// goes on as it answers. Bytes read ahead stay.
pub proof fn writing_goes_on_as_answered<T, H: MessageHandler<T>>(
    before: Conn<T, H>,
    after: Conn<T, H>,
    message: Http1<H, DecoderOf<T, H>, EncoderOf<T, H>>,
    body: EncoderOf<T, H>,
)
    requires
        before.encodes(after),
        before.status() == State::Http1(message),
        message.writing == Writing::Ready(body),
    ensures
        after.buffer() == before.buffer(),
        exists|asked: &mut H, lent: &mut Encoder<'_, EncoderOf<T, H>, T>, next: Next|
            {
                &&& #[trigger] call_ensures(H::on_encode, (asked, lent), next)
                &&& *asked == message.handler
                &&& *(*lent).encoder == body
                &&& *(*lent).transport == before.port()
                &&& *final((*lent).transport) == after.port()
                &&& match next@ {
                    Next_::Remove => after.status() is Closed,
                    Next_::End => match after.status() {
                        State::Http1(_) => false,
                        State::Init => {
                            &&& message.keep_alive
                            &&& match message.reading {
                                Reading::KeepAlive => true,
                                Reading::Body(decoder) => call_ensures(
                                    <DecoderOf<T, H> as BodyDecoder>::is_eof,
                                    (&decoder,),
                                    true,
                                ),
                                _ => false,
                            }
                            &&& call_ensures(
                                <EncoderOf<T, H> as BodyEncoder>::is_eof,
                                (&*final((*lent).encoder),),
                                true,
                            )
                        },
                        State::Closed => {
                            ||| !message.keep_alive
                            ||| match message.reading {
                                Reading::KeepAlive => false,
                                Reading::Body(decoder) => call_ensures(
                                    <DecoderOf<T, H> as BodyDecoder>::is_eof,
                                    (&decoder,),
                                    false,
                                ),
                                _ => true,
                            }
                            ||| call_ensures(
                                <EncoderOf<T, H> as BodyEncoder>::is_eof,
                                (&*final((*lent).encoder),),
                                false,
                            )
                        },
                    },
                    Next_::Wait => after.status() == State::Http1(
                        Http1 {
                            handler: *final(asked),
                            reading: message.reading,
                            writing: Writing::Ready(*final((*lent).encoder)),
                            keep_alive: message.keep_alive,
                        },
                    ),
                    Next_::Read => {
                        &&& after.status() matches State::Http1(later)
                        &&& later.handler == *final(asked)
                        &&& later.keep_alive == message.keep_alive
                        &&& match message.reading {
                            Reading::Wait(decoder) => later.reading == Reading::Body(decoder),
                            _ => later.reading == message.reading,
                        }
                        &&& {
                            ||| later.writing == Writing::Wait(*final((*lent).encoder))
                                && call_ensures(
                                <EncoderOf<T, H> as BodyEncoder>::is_eof,
                                (&*final((*lent).encoder),),
                                false,
                            )
                            ||| later.writing is KeepAlive && message.keep_alive && call_ensures(
                                <EncoderOf<T, H> as BodyEncoder>::is_eof,
                                (&*final((*lent).encoder),),
                                true,
                            )
                            ||| later.writing is Closed && !message.keep_alive && call_ensures(
                                <EncoderOf<T, H> as BodyEncoder>::is_eof,
                                (&*final((*lent).encoder),),
                                true,
                            )
                        }
                    },
                    Next_::Write => {
                        &&& after.status() matches State::Http1(later)
                        &&& later.handler == *final(asked)
                        &&& later.keep_alive == message.keep_alive
                        &&& match message.reading {
                            Reading::Body(decoder) => {
                                ||| later.reading == Reading::Wait(decoder) && call_ensures(
                                    <DecoderOf<T, H> as BodyDecoder>::is_eof,
                                    (&decoder,),
                                    false,
                                )
                                ||| later.reading is KeepAlive && message.keep_alive
                                    && call_ensures(
                                    <DecoderOf<T, H> as BodyDecoder>::is_eof,
                                    (&decoder,),
                                    true,
                                )
                                ||| later.reading is Closed && !message.keep_alive && call_ensures(
                                    <DecoderOf<T, H> as BodyDecoder>::is_eof,
                                    (&decoder,),
                                    true,
                                )
                            },
                            _ => later.reading == message.reading,
                        }
                        &&& later.writing == Writing::Ready(*final((*lent).encoder))
                    },
                    Next_::ReadWrite => {
                        &&& after.status() matches State::Http1(later)
                        &&& later.handler == *final(asked)
                        &&& later.keep_alive == message.keep_alive
                        &&& match message.reading {
                            Reading::Wait(decoder) => later.reading == Reading::Body(decoder),
                            _ => later.reading == message.reading,
                        }
                        &&& later.writing == Writing::Ready(*final((*lent).encoder))
                    },
                }
            },
{
}

/// A handler fills in a blank head. Where it is done with that, the connection
/// is over; otherwise its message goes on, with the bytes of the head to be
/// written first: ahead of the body where the handler wants to write that, by
/// themselves otherwise. The message that comes in is moved on as for every
/// answer. The connection stays kept only if the head allows it.
pub proof fn heads_go_on_as_answered<T, H: MessageHandler<T>>(
    before: Conn<T, H>,
    after: Conn<T, H>,
    message: Http1<H, DecoderOf<T, H>, EncoderOf<T, H>>,
)
    requires
        before.heads(after),
        before.status() == State::Http1(message),
    ensures
        message.writing is Head,
        after.buffer() == before.buffer(),
        after.port() == before.port(),
        exists|blank: OutgoingOf<T, H>, asked: &mut H, filled: &mut OutgoingOf<T, H>, next: Next|
            {
                &&& #[trigger] call_ensures(<OutgoingOf<T, H> as Default>::default, (), blank)
                &&& #[trigger] call_ensures(H::on_outgoing, (asked, filled), next)
                &&& *asked == message.handler
                &&& *filled == blank
                &&& match after.status() {
                    State::Init => false,
                    State::Closed => next@ == Next_::End || next@ == Next_::Remove,
                    State::Http1(later) => {
                        &&& next@ != Next_::End && next@ != Next_::Remove
                        &&& later.handler == *final(asked)
                        &&& if message.keep_alive {
                            call_ensures(
                                <OutgoingOf<T, H> as MessageHead>::should_keep_alive,
                                (&*final(filled),),
                                later.keep_alive,
                            )
                        } else {
                            !later.keep_alive
                        }
                        &&& if next@ == Next_::Wait {
                            later.reading == message.reading
                        } else if next@ == Next_::Write {
                            match message.reading {
                                Reading::Body(decoder) => {
                                    ||| later.reading == Reading::Wait(decoder) && call_ensures(
                                        <DecoderOf<T, H> as BodyDecoder>::is_eof,
                                        (&decoder,),
                                        false,
                                    )
                                    ||| later.reading is KeepAlive && later.keep_alive
                                        && call_ensures(
                                        <DecoderOf<T, H> as BodyDecoder>::is_eof,
                                        (&decoder,),
                                        true,
                                    )
                                    ||| later.reading is Closed && !later.keep_alive
                                        && call_ensures(
                                        <DecoderOf<T, H> as BodyDecoder>::is_eof,
                                        (&decoder,),
                                        true,
                                    )
                                },
                                _ => later.reading == message.reading,
                            }
                        } else {
                            match message.reading {
                                Reading::Wait(decoder) => later.reading == Reading::Body(decoder),
                                _ => later.reading == message.reading,
                            }
                        }
                        &&& exists|dst: &mut Vec<u8>, encoder: EncoderOf<T, H>|
                            {
                                &&& #[trigger] call_ensures(
                                    <H::Message as Http1Message>::encode,
                                    (*final(filled), dst),
                                    encoder,
                                )
                                &&& dst@ == Seq::<u8>::empty()
                                &&& if next@ == Next_::Write || next@ == Next_::ReadWrite {
                                    exists|lent: &mut EncoderOf<T, H>|
                                        {
                                            &&& #[trigger] call_ensures(
                                                <EncoderOf<T, H> as BodyEncoder>::prefix,
                                                (lent, WriteBuf { bytes: *final(dst), pos: 0 }),
                                                (),
                                            )
                                            &&& *lent == encoder
                                            &&& later.writing == Writing::Ready(*final(lent))
                                        }
                                } else {
                                    later.writing == Writing::Chunk(
                                        Chunk { buf: *final(dst), pos: 0, next: (encoder, next) },
                                    )
                                }
                            }
                    },
                }
            },
{
}

} // verus!
