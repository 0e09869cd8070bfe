//! What a user of a connection supplies: handlers for messages, and a way to
//! make them.
use crate::buffer::Buffer;
use crate::message::{Decoder, Encoder, Http1Message, Trans};
use crate::next::Next;
use vstd::prelude::*;

verus! {

/// The framing of the bodies that come in to handlers of type `H`.
pub type DecoderOf<T, H> = <<H as MessageHandler<T>>::Message as Http1Message>::Decoder;

/// The framing of the bodies that go out of handlers of type `H`.
pub type EncoderOf<T, H> = <<H as MessageHandler<T>>::Message as Http1Message>::Encoder;

/// The heads that come in to handlers of type `H`.
pub type IncomingOf<T, H> = <<H as MessageHandler<T>>::Message as Http1Message>::Incoming;

/// The heads that go out of handlers of type `H`.
pub type OutgoingOf<T, H> = <<H as MessageHandler<T>>::Message as Http1Message>::Outgoing;

/// Handles one message over a transport of type `T`. Each method answers what
/// the handler wants to do next.
pub trait MessageHandler<T>: Sized {
    /// The kind of message.
    type Message: Http1Message;

    /// The head of a message came in.
    fn on_incoming(&mut self, head: <Self::Message as Http1Message>::Incoming) -> Next;

    /// The head of the message that goes out can be filled in.
    fn on_outgoing(&mut self, head: &mut <Self::Message as Http1Message>::Outgoing) -> Next;

    /// The body that comes in can be read.
    fn on_decode(
        &mut self,
        decoder: &mut Decoder<'_, <Self::Message as Http1Message>::Decoder, T>,
    ) -> Next;

    /// The body that goes out can be written.
    fn on_encode(
        &mut self,
        encoder: &mut Encoder<'_, <Self::Message as Http1Message>::Encoder, T>,
    ) -> Next;
}

/// Makes a handler for each message of a connection.
pub trait MessageHandlerFactory<T> {
    /// The handlers it makes.
    type Output: MessageHandler<T>;

    /// Whether a handler can be made now.
    open spec fn can_create(&self) -> bool {
        true
    }

    /// Makes the handler of the next message.
    fn create(&mut self) -> Self::Output
        requires
            old(self).can_create(),
    ;
}

impl<F, H, T> MessageHandlerFactory<T> for F where F: FnMut() -> H, H: MessageHandler<T> {
    type Output = H;

    open spec fn can_create(&self) -> bool {
        call_requires(*self, ())
    }

    fn create(&mut self) -> (handler: H)
        ensures
            call_ensures(*old(self), (), handler),
    {
        self()
    }
}

/// A handler after it read from the body that came in, with all that it was
/// lent, and its answer.
pub struct Decoded<T, H: MessageHandler<T>> {
    pub handler: H,
    pub body: DecoderOf<T, H>,
    pub buffer: Buffer,
    pub transport: T,
    pub next: Next,
}

/// A handler after it wrote to the body that goes out, with all that it was
/// lent, and its answer.
pub struct Encoded<T, H: MessageHandler<T>> {
    pub handler: H,
    pub body: EncoderOf<T, H>,
    pub transport: T,
    pub next: Next,
}

/// Has the handler see the head of a message that came in.
pub fn incoming<T, H: MessageHandler<T>>(handler: H, head: IncomingOf<T, H>) -> (answer: (H, Next))
    ensures
        exists|asked: &mut H, next: Next|
            {
                &&& #[trigger] call_ensures(H::on_incoming, (asked, head), next)
                &&& answer.1 == next
                &&& *asked == handler
                &&& *final(asked) == answer.0
            },
{
    let mut handler = handler;
    let next = handler.on_incoming(head);
    (handler, next)
}

/// Has the handler fill in the head of the message that goes out.
pub fn outgoing<T, H: MessageHandler<T>>(handler: H, head: OutgoingOf<T, H>) -> (answer: (
    H,
    OutgoingOf<T, H>,
    Next,
))
    ensures
        exists|asked: &mut H, filled: &mut OutgoingOf<T, H>, next: Next|
            {
                &&& #[trigger] call_ensures(H::on_outgoing, (asked, filled), next)
                &&& answer.2 == next
                &&& *asked == handler
                &&& *filled == head
                &&& *final(asked) == answer.0
                &&& *final(filled) == answer.1
            },
{
    let mut handler = handler;
    let mut head = head;
    let next = handler.on_outgoing(&mut head);
    (handler, head, next)
}

/// Has the handler read from the body that comes in. It is lent the framing of
/// the body, and the transport with the bytes read ahead in front of it, or
/// the transport alone where there are none.
pub fn decode<T, H: MessageHandler<T>>(
    handler: H,
    body: DecoderOf<T, H>,
    buffer: Buffer,
    transport: T,
) -> (decoded: Decoded<T, H>)
    ensures
        exists|asked: &mut H, lent: &mut Decoder<'_, DecoderOf<T, H>, T>, next: Next|
            {
                &&& #[trigger] call_ensures(H::on_decode, (asked, lent), next)
                &&& decoded.next == next
                &&& *asked == handler
                &&& *final(asked) == decoded.handler
                &&& *(*lent).decoder == body
                &&& *final((*lent).decoder) == decoded.body
                &&& match (*lent).trans {
                    Trans::Port(port) => {
                        &&& buffer@.len() == 0
                        &&& decoded.buffer == buffer
                        &&& *port == transport
                        &&& *final(port) == decoded.transport
                    },
                    Trans::Buf(ahead, port) => {
                        &&& buffer@.len() > 0
                        &&& *ahead == buffer
                        &&& *final(ahead) == decoded.buffer
                        &&& *port == transport
                        &&& *final(port) == decoded.transport
                    },
                }
            },
{
    let mut handler = handler;
    let mut body = body;
    let mut buffer = buffer;
    let mut transport = transport;
    let next = if !buffer.is_empty() {
        let trans = Trans::Buf(&mut buffer, &mut transport);
        handler.on_decode(&mut Decoder { decoder: &mut body, trans })
    } else {
        let trans = Trans::Port(&mut transport);
        handler.on_decode(&mut Decoder { decoder: &mut body, trans })
    };
    Decoded { handler, body, buffer, transport, next }
}

/// Has the handler write to the body that goes out. It is lent the framing of
/// the body and the transport.
pub fn encode<T, H: MessageHandler<T>>(
    handler: H,
    body: EncoderOf<T, H>,
    transport: T,
) -> (encoded: Encoded<T, H>)
    ensures
        exists|asked: &mut H, lent: &mut Encoder<'_, EncoderOf<T, H>, T>, next: Next|
            {
                &&& #[trigger] call_ensures(H::on_encode, (asked, lent), next)
                &&& encoded.next == next
                &&& *asked == handler
                &&& *final(asked) == encoded.handler
                &&& *(*lent).encoder == body
                &&& *final((*lent).encoder) == encoded.body
                &&& *(*lent).transport == transport
                &&& *final((*lent).transport) == encoded.transport
            },
{
    let mut handler = handler;
    let mut body = body;
    let mut transport = transport;
    let next = handler.on_encode(&mut Encoder { encoder: &mut body, transport: &mut transport });
    Encoded { handler, body, transport, next }
}

} // verus!
