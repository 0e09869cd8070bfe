//! The kind of message that a connection carries, and the halves of a body
//! that a handler reads from and writes to.
use crate::buffer::Buffer;
use crate::next::Next;
use vstd::prelude::*;

verus! {

/// The head of a message: its first line and its headers.
pub trait MessageHead {
    /// Whether the connection may be used again after the message, as far as
    /// this head says.
    fn should_keep_alive(&self) -> bool;
}

/// The framing of a body that comes in.
pub trait BodyDecoder {
    /// Whether the whole body was decoded.
    fn is_eof(&self) -> bool;
}

/// The framing of a body that goes out.
pub trait BodyEncoder {
    /// Whether the whole body was encoded.
    fn is_eof(&self) -> bool;

    /// Has the given bytes go out ahead of the body, together with its first
    /// part.
    fn prefix(&mut self, prefix: WriteBuf);
}

/// Bytes to be written, of which those before `pos` were written already.
#[derive(Debug)]
pub struct WriteBuf {
    pub bytes: Vec<u8>,
    pub pos: usize,
}

/// A kind of message over HTTP/1: the requests and responses as a server
/// sees them, or as a client does.
pub trait Http1Message {
    /// The head of a message that comes in.
    type Incoming: MessageHead;

    /// The head of a message that goes out.
    type Outgoing: MessageHead + Default;

    /// The framing of a body that comes in.
    type Decoder: BodyDecoder;

    /// The framing of a body that goes out.
    type Encoder: BodyEncoder;

    /// Why a head was not understood.
    type Error;

    /// What a connection waits for while no message is under way.
    fn initial_interest() -> Next;

    /// Reads a head off the front of the bytes. Gives the head and the number
    /// of bytes that it takes, or nothing where the bytes end before the head
    /// does.
    fn parse(bytes: &[u8]) -> Result<Option<(Self::Incoming, usize)>, Self::Error>;

    /// The framing of the body that follows the head.
    fn decoder(head: &Self::Incoming) -> Result<Self::Decoder, Self::Error>;

    /// Writes the head as bytes, and gives the framing of the body that is to
    /// follow it.
    fn encode(head: Self::Outgoing, dst: &mut Vec<u8>) -> Self::Encoder;
}

/// Where the bytes of a body come from.
pub enum Trans<'a, T> {
    /// The transport alone.
    Port(&'a mut T),
    /// Bytes that were read ahead, and the transport once they are used up.
    Buf(&'a mut Buffer, &'a mut T),
}

/// The body that comes in, as a handler gets to read it.
pub struct Decoder<'a, D, T> {
    pub decoder: &'a mut D,
    pub trans: Trans<'a, T>,
}

/// The body that goes out, as a handler gets to write it.
pub struct Encoder<'a, E, T> {
    pub encoder: &'a mut E,
    pub transport: &'a mut T,
}

/// Has a head written as bytes, with the framing of the body behind it.
pub fn encode_head<M: Http1Message>(head: M::Outgoing) -> (encoded: (Vec<u8>, M::Encoder))
    ensures
        exists|dst: &mut Vec<u8>, encoder: M::Encoder|
            {
                &&& #[trigger] call_ensures(M::encode, (head, dst), encoder)
                &&& encoded.1 == encoder
                &&& dst@ == Seq::<u8>::empty()
                &&& *final(dst) == encoded.0
            },
{
    let mut buf = Vec::new();
    let encoder = M::encode(head, &mut buf);
    (buf, encoder)
}

/// Has bytes go out ahead of a body.
pub fn prefixed<E: BodyEncoder>(encoder: E, prefix: WriteBuf) -> (after: E)
    ensures
        exists|lent: &mut E|
            {
                &&& #[trigger] call_ensures(E::prefix, (lent, prefix), ())
                &&& *lent == encoder
                &&& *final(lent) == after
            },
{
    let mut encoder = encoder;
    encoder.prefix(prefix);
    encoder
}

} // verus!
