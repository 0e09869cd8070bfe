//! A connection: the bytes read ahead, the state, and the transport.
use crate::buffer::{after, Buffer};
use crate::handler::{
    decode, encode, incoming, outgoing, Decoded, DecoderOf, Encoded, EncoderOf, IncomingOf,
    MessageHandler, MessageHandlerFactory, OutgoingOf,
};
use crate::message::{encode_head, prefixed, Http1Message, MessageHead, WriteBuf};
use crate::next::{registration, Next, Next_, Reg};
use crate::state::{Chunk, Http1, Reading, State, Writing};
use vstd::prelude::*;

pub mod turn;

verus! {

/// The size from which on bytes that hold no whole head are given up on.
pub const MAX_BUFFER_SIZE: usize = 8192 + 4096 * 100;

/// Why a transport could not read or write.
#[derive(Debug, Clone, Copy, PartialEq, Eq, Structural)]
pub enum IoError {
    /// It would have to wait.
    WouldBlock,
    /// It was interrupted before it began.
    Interrupted,
    /// It failed for good.
    Other,
}

impl IoError {
    /// Whether the same may work later.
    pub open spec fn passes(self) -> bool {
        self == IoError::WouldBlock || self == IoError::Interrupted
    }
}

/// The state of a connection over `T` with handlers of type `H`.
pub type StateOf<T, H> = State<H, DecoderOf<T, H>, EncoderOf<T, H>>;

/// A connection over a transport, which will likely carry several messages.
///
/// The connection determines where a message begins and ends, makes a new
/// handler for each one, and decides if it can be kept for another message or
/// is complete.
pub struct Conn<T, H: MessageHandler<T>> {
    buf: Buffer,
    state: StateOf<T, H>,
    transport: T,
}

impl<T, H: MessageHandler<T>> Conn<T, H> {
    /// The bytes that were read ahead.
    pub closed spec fn buffer(self) -> Buffer {
        self.buf
    }

    /// Where the connection stands.
    pub closed spec fn status(self) -> StateOf<T, H> {
        self.state
    }

    /// What the connection runs over.
    pub closed spec fn port(self) -> T {
        self.transport
    }

    /// No more bytes of a head were written than it has.
    pub open spec fn wf(self) -> bool {
        self.status().wf()
    }

    /// Whether a readable event finds something to do it with: a body that is
    /// being read, or no message at all.
    pub open spec fn takes_readable(self) -> bool {
        self.status() matches State::Http1(http1) ==> http1.reading is Body
    }

    /// Whether a writable event finds something to do it with: a head or a
    /// body that is being written, or nothing left to write ever.
    pub open spec fn takes_writable(self) -> bool {
        match self.status() {
            State::Init => false,
            State::Http1(http1) => http1.writes() || http1.writing is Closed,
            State::Closed => true,
        }
    }

    /// Whether the connection asks for `reg`: what its message needs, or what
    /// its kind of message waits for while there is none, or to be taken out
    /// of the event loop when it is over.
    pub open spec fn asks(self, reg: Reg) -> bool {
        match self.status() {
            State::Init => exists|next: Next|
                {
                    &&& #[trigger] call_ensures(
                        <H::Message as Http1Message>::initial_interest,
                        (),
                        next,
                    )
                    &&& reg == registration(next@)
                },
            State::Http1(http1) => reg == http1.registration(),
            State::Closed => reg == Reg::Remove,
        }
    }

    /// A connection on which no message is under way.
    pub fn new(transport: T) -> (conn: Conn<T, H>)
        ensures
            conn.wf(),
            conn.status() is Init,
            conn.buffer()@ == Seq::<u8>::empty(),
            conn.port() == transport,
    {
        Conn { buf: Buffer::new(), state: State::Init, transport }
    }

    /// Where the connection stands.
    pub fn state(&self) -> (state: &StateOf<T, H>)
        ensures
            *state == self.status(),
    {
        &self.state
    }

    /// What the connection runs over.
    pub fn transport(&self) -> (transport: &T)
        ensures
            *transport == self.port(),
    {
        &self.transport
    }

    /// What the connection asks the event loop to watch for.
    pub fn interest(&self) -> (reg: Reg)
        ensures
            self.asks(reg),
    {
        match &self.state {
            State::Closed => Reg::Remove,
            State::Init => <H::Message as Http1Message>::initial_interest().interest(),
            State::Http1(http1) => http1.interest(),
        }
    }

    /// Whether a readable event finds something to do it with.
    pub fn can_read(&self) -> (yes: bool)
        ensures
            yes == self.takes_readable(),
    {
        match &self.state {
            State::Http1(http1) => matches!(http1.reading, Reading::Body(..)),
            _ => true,
        }
    }

    /// Whether a writable event finds something to do it with.
    pub fn can_write(&self) -> (yes: bool)
        ensures
            yes == self.takes_writable(),
    {
        match &self.state {
            State::Init => false,
            State::Http1(http1) => match http1.writing {
                Writing::Head | Writing::Chunk(..) | Writing::Ready(..) | Writing::Closed => true,
                _ => false,
            },
            State::Closed => true,
        }
    }
}

// What the connection does when the transport is readable.
impl<T, H: MessageHandler<T>> Conn<T, H> {
    /// Whether the connection rests in the given state, with the given bytes
    /// read ahead, over the given transport.
    pub open spec fn rests(self, state: StateOf<T, H>, unread: Seq<u8>, port: T) -> bool {
        &&& self.status() == state
        &&& self.buffer()@ == unread
        &&& self.port() == port
    }

    /// Whether the connection becomes `end` without a handler having been
    /// made: it goes to the given state, with the given bytes read ahead.
    pub open spec fn becomes(
        self,
        state: StateOf<T, H>,
        unread: Seq<u8>,
        made: Option<H>,
        end: Option<Self>,
    ) -> bool {
        &&& made is None
        &&& end matches Some(conn) && conn.rests(state, unread, self.port())
    }

    /// Whether the connection becomes `after` as the handler reads from the
    /// body that comes in.
    pub open spec fn decodes(self, after: Self) -> bool {
        &&& self.status() matches State::Http1(http1)
        &&& http1.reading matches Reading::Body(body)
        &&& exists|decoded: Decoded<T, H>|
            {
                &&& #[trigger] call_ensures(
                    decode::<T, H>,
                    (http1.handler, body, self.buffer(), self.port()),
                    decoded,
                )
                &&& after.buffer() == decoded.buffer
                &&& after.port() == decoded.transport
                &&& State::Http1(
                    Http1 {
                        handler: decoded.handler,
                        reading: Reading::Body(decoded.body),
                        ..http1
                    },
                ).moves(decoded.next@, after.status())
            }
    }

    /// Whether the connection becomes `end` once a new handler saw the head of
    /// its message, with `rest` read ahead. A handler that wants to read gets
    /// to read from the body at once. There is no connection to go on with
    /// where the handler does not want anything.
    pub open spec fn greets(
        self,
        handler: H,
        head: IncomingOf<T, H>,
        decoder: DecoderOf<T, H>,
        keep_alive: bool,
        rest: Seq<u8>,
        end: Option<Self>,
    ) -> bool {
        exists|answer: (H, Next)|
            {
                &&& #[trigger] call_ensures(incoming::<T, H>, (handler, head), answer)
                &&& match end {
                    None => answer.1@ == Next_::Wait,
                    Some(after) => {
                        &&& answer.1@ != Next_::Wait
                        &&& exists|start: Self|
                            {
                                &&& #[trigger] State::begins(
                                    answer.0,
                                    answer.1@,
                                    decoder,
                                    keep_alive,
                                    start.status(),
                                )
                                &&& start.buffer()@ == rest
                                &&& start.port() == self.port()
                                &&& if answer.1@ == Next_::Read || answer.1@ == Next_::ReadWrite {
                                    start.decodes(after)
                                } else {
                                    after == start
                                }
                            }
                    },
                }
            }
    }

    /// Whether the connection becomes `end` after `head` was read, with `rest`
    /// behind it: a handler is made and sees the head, unless there is no
    /// framing for the body, which closes the connection.
    pub open spec fn frames(
        self,
        head: IncomingOf<T, H>,
        rest: Seq<u8>,
        made: Option<H>,
        end: Option<Self>,
    ) -> bool {
        exists|framing: Result<DecoderOf<T, H>, <H::Message as Http1Message>::Error>|
            {
                &&& #[trigger] call_ensures(
                    <H::Message as Http1Message>::decoder,
                    (&head,),
                    framing,
                )
                &&& match framing {
                    Err(_) => self.becomes(State::Closed, rest, made, end),
                    Ok(decoder) => exists|keep_alive: bool|
                        {
                            &&& #[trigger] call_ensures(
                                <IncomingOf<T, H> as MessageHead>::should_keep_alive,
                                (&head,),
                                keep_alive,
                            )
                            &&& made matches Some(handler) && self.greets(
                                handler,
                                head,
                                decoder,
                                keep_alive,
                                rest,
                                end,
                            )
                        },
                }
            }
    }

    /// Whether the connection becomes `end` with `unread` at hand: a head is
    /// read off its front. Bytes that hold none close the connection, and so
    /// do bytes that do not hold a whole one but are too many already.
    pub open spec fn parses(self, unread: Seq<u8>, made: Option<H>, end: Option<Self>) -> bool {
        exists|
            data: &[u8],
            parsed: Result<
                Option<(IncomingOf<T, H>, usize)>,
                <H::Message as Http1Message>::Error,
            >,
        |
            {
                &&& #[trigger] call_ensures(<H::Message as Http1Message>::parse, (data,), parsed)
                &&& data@ == unread
                &&& match parsed {
                    Err(_) => self.becomes(State::Closed, unread, made, end),
                    Ok(None) => if unread.len() >= MAX_BUFFER_SIZE {
                        self.becomes(State::Closed, unread, made, end)
                    } else {
                        self.becomes(State::Init, unread, made, end)
                    },
                    Ok(Some((head, len))) => self.frames(
                        head,
                        after(unread, len as int),
                        made,
                        end,
                    ),
                }
            }
    }

    /// Whether the connection, on which no message is under way, becomes `end`
    /// with what was read from the transport: it closes at the end of the
    /// transport and when the transport failed for good, stays as it is when
    /// reading may work later, and looks for a head in the bytes otherwise.
    /// `made` is the handler that was made for it, if one was.
    pub open spec fn reads(
        self,
        got: Result<Vec<u8>, IoError>,
        made: Option<H>,
        end: Option<Self>,
    ) -> bool {
        match got {
            Err(error) => if error.passes() {
                self.becomes(State::Init, self.buffer()@, made, end)
            } else {
                self.becomes(State::Closed, self.buffer()@, made, end)
            },
            Ok(bytes) => if bytes@.len() == 0 {
                self.becomes(State::Closed, self.buffer()@, made, end)
            } else {
                self.parses(self.buffer()@ + bytes@, made, end)
            },
        }
    }

    /// Has the handler read from the body that comes in, and moves the
    /// connection on as it answers.
    pub fn decode(self) -> (conn: Self)
        requires
            self.wf(),
            self.status() matches State::Http1(http1) && http1.reading is Body,
        ensures
            conn.wf(),
            self.decodes(conn),
    {
        let Conn { buf, state, transport } = self;
        match state {
            State::Http1(Http1 { handler, reading: Reading::Body(body), writing, keep_alive }) => {
                let decoded = decode(handler, body, buf, transport);
                let Decoded { handler, body, buffer, transport, next } = decoded;
                let reading = Reading::Body(body);
                let mut state = State::Http1(Http1 { handler, reading, writing, keep_alive });
                state.update(next);
                Conn { buf: buffer, state, transport }
            },
            state => Conn { buf, state, transport },
        }
    }

    /// Goes on with what was read from the transport while no message is under
    /// way. There is no connection to go on with where the handler of a new
    /// message does not want anything.
    pub fn read<F: MessageHandlerFactory<T, Output = H>>(
        self,
        factory: &mut F,
        got: Result<Vec<u8>, IoError>,
    ) -> (end: Option<Self>)
        requires
            self.status() is Init,
            old(factory).can_create(),
        ensures
            end matches Some(conn) ==> conn.wf(),
            exists|made: Option<H>|
                {
                    &&& #[trigger] self.reads(got, made, end)
                    &&& match made {
                        None => *final(factory) == *old(factory),
                        Some(handler) => exists|maker: &mut F|
                            {
                                &&& #[trigger] call_ensures(F::create, (maker,), handler)
                                &&& *maker == *old(factory)
                                &&& *final(maker) == *final(factory)
                            },
                    }
                },
    {
        let ghost this = self;
        let ghost mut made: Option<H> = None;
        let Conn { mut buf, transport, .. } = self;
        let end = match got {
            Err(IoError::WouldBlock) | Err(IoError::Interrupted) => Some(
                Conn { buf, state: State::Init, transport },
            ),
            Err(IoError::Other) => Some(Conn { buf, state: State::Closed, transport }),
            Ok(bytes) => if bytes.len() == 0 {
                Some(Conn { buf, state: State::Closed, transport })
            } else {
                buf.put(bytes);
                match <H::Message as Http1Message>::parse(buf.bytes()) {
                    Ok(Some((head, len))) => {
                        buf.consume(len);
                        match <H::Message as Http1Message>::decoder(&head) {
                            Ok(decoder) => {
                                let keep_alive = head.should_keep_alive();
                                let handler = factory.create();
                                proof {
                                    made = Some(handler);
                                }
                                let (handler, next) = incoming(handler, head);
                                match next.wish() {
                                    Next_::Wait => None,
                                    Next_::Read | Next_::ReadWrite => {
                                        let state = State::begin(handler, next, decoder, keep_alive);
                                        Some(Conn { buf, state, transport }.decode())
                                    },
                                    _ => {
                                        let state = State::begin(handler, next, decoder, keep_alive);
                                        Some(Conn { buf, state, transport })
                                    },
                                }
                            },
                            Err(_) => Some(Conn { buf, state: State::Closed, transport }),
                        }
                    },
                    Ok(None) => if buf.len() >= MAX_BUFFER_SIZE {
                        Some(Conn { buf, state: State::Closed, transport })
                    } else {
                        Some(Conn { buf, state: State::Init, transport })
                    },
                    Err(_) => Some(Conn { buf, state: State::Closed, transport }),
                }
            },
        };
        assert(this.reads(got, made, end));
        end
    }
}

// What the connection does when the transport is writable.
impl<T, H: MessageHandler<T>> Conn<T, H> {
    /// Whether `writing` carries the bytes of a head on, after the handler
    /// that filled it in answered `next`: ahead of the body where the handler
    /// wants to write that right away, so that both go out together, and by
    /// themselves otherwise.
    pub open spec fn carries(
        bytes: Vec<u8>,
        encoder: EncoderOf<T, H>,
        next: Next,
        writing: Writing<EncoderOf<T, H>>,
    ) -> bool {
        if next@ == Next_::Write || next@ == Next_::ReadWrite {
            exists|body: EncoderOf<T, H>|
                {
                    &&& #[trigger] call_ensures(
                        prefixed::<EncoderOf<T, H>>,
                        (encoder, WriteBuf { bytes, pos: 0 }),
                        body,
                    )
                    &&& writing == Writing::Ready(body)
                }
        } else {
            writing == Writing::Chunk(Chunk { buf: bytes, pos: 0, next: (encoder, next) })
        }
    }

    /// Whether the connection becomes `after` once the head of the message
    /// that goes out was filled in: it is written as bytes, and the
    /// connection is kept only if the message that came in allows it and this
    /// head does too.
    pub open spec fn sends(
        self,
        handler: H,
        head: OutgoingOf<T, H>,
        next: Next,
        after: Self,
    ) -> bool {
        &&& self.status() matches State::Http1(http1)
        &&& exists|
            encoded: (Vec<u8>, EncoderOf<T, H>),
            message: Http1<H, DecoderOf<T, H>, EncoderOf<T, H>>,
        |
            {
                &&& #[trigger] call_ensures(encode_head::<H::Message>, (head,), encoded)
                &&& Self::carries(encoded.0, encoded.1, next, message.writing)
                &&& message.handler == handler
                &&& message.reading == http1.reading
                &&& if http1.keep_alive {
                    call_ensures(
                        <OutgoingOf<T, H> as MessageHead>::should_keep_alive,
                        (&head,),
                        message.keep_alive,
                    )
                } else {
                    !message.keep_alive
                }
                &&& #[trigger] State::Http1(message).moves(next@, after.status())
            }
    }

    /// Whether the connection becomes `after` as the handler fills in the head
    /// of the message that goes out.
    pub open spec fn heads(self, after: Self) -> bool {
        &&& self.status() matches State::Http1(http1)
        &&& http1.writing is Head
        &&& after.buffer() == self.buffer()
        &&& after.port() == self.port()
        &&& exists|blank: OutgoingOf<T, H>, answer: (H, OutgoingOf<T, H>, Next)|
            {
                &&& #[trigger] call_ensures(<OutgoingOf<T, H> as Default>::default, (), blank)
                &&& #[trigger] call_ensures(outgoing::<T, H>, (http1.handler, blank), answer)
                &&& self.sends(answer.0, answer.1, answer.2, after)
            }
    }

    /// Whether the connection becomes `after` as the handler writes to the
    /// body that goes out.
    pub open spec fn encodes(self, after: Self) -> bool {
        &&& self.status() matches State::Http1(http1)
        &&& http1.writing matches Writing::Ready(body)
        &&& after.buffer() == self.buffer()
        &&& exists|encoded: Encoded<T, H>|
            {
                &&& #[trigger] call_ensures(
                    encode::<T, H>,
                    (http1.handler, body, self.port()),
                    encoded,
                )
                &&& after.port() == encoded.transport
                &&& State::Http1(
                    Http1 {
                        handler: encoded.handler,
                        writing: Writing::Ready(encoded.body),
                        ..http1
                    },
                ).moves(encoded.next@, after.status())
            }
    }

    /// The bytes of a head that are not written yet.
    pub open spec fn unsent(self) -> Seq<u8> {
        match self.status() {
            State::Http1(http1) => http1.writing.unsent(),
            _ => Seq::empty(),
        }
    }

    /// Whether the connection becomes `after` when the transport was given
    /// the bytes of a head that are not written yet, and `put` came of it.
    /// Those that it took are gone, and once none is left the handler's answer
    /// to the head takes effect. The connection closes where the transport
    /// failed for good.
    pub open spec fn writes(self, put: Result<usize, IoError>, after: Self) -> bool {
        &&& self.status() matches State::Http1(http1)
        &&& http1.writing matches Writing::Chunk(chunk)
        &&& after.buffer() == self.buffer()
        &&& after.port() == self.port()
        &&& match put {
            Err(error) => after.status() == if error.passes() {
                self.status()
            } else {
                State::Closed
            },
            Ok(n) => {
                let sent = State::Http1(
                    Http1 {
                        writing: Writing::Chunk(Chunk { pos: (chunk.pos + n) as usize, ..chunk }),
                        ..http1
                    },
                );
                if n == self.unsent().len() {
                    sent.moves(chunk.next.1@, after.status())
                } else {
                    after.status() == sent
                }
            },
        }
    }

    /// The bytes of a head that are not written yet.
    pub fn pending(&self) -> (bytes: &[u8])
        requires
            self.wf(),
            self.status() matches State::Http1(http1) && http1.writing is Chunk,
        ensures
            bytes@ == self.unsent(),
    {
        match &self.state {
            State::Http1(Http1 { writing: Writing::Chunk(chunk), .. }) => {
                vstd::slice::slice_subrange(chunk.buf.as_slice(), chunk.pos, chunk.buf.len())
            },
            _ => self.buf.bytes(),
        }
    }

    /// Has the handler fill in the head of the message that goes out, and
    /// moves the connection on as it answers.
    pub fn head(self) -> (conn: Self)
        requires
            self.wf(),
            self.status() matches State::Http1(http1) && http1.writing is Head,
        ensures
            conn.wf(),
            self.heads(conn),
    {
        let ghost this = self;
        let Conn { buf, state, transport } = self;
        match state {
            State::Http1(Http1 { handler, reading, writing: Writing::Head, keep_alive }) => {
                let head = <OutgoingOf<T, H> as Default>::default();
                let (handler, head, next) = outgoing(handler, head);
                // if the message that came in wants to close, nothing stops it
                let keep_alive = if keep_alive {
                    head.should_keep_alive()
                } else {
                    false
                };
                let ghost filled = head;
                let (bytes, encoder) = encode_head::<H::Message>(head);
                let writing = match next.wish() {
                    Next_::Write | Next_::ReadWrite => Writing::Ready(
                        prefixed(encoder, WriteBuf { bytes, pos: 0 }),
                    ),
                    _ => Writing::Chunk(Chunk { buf: bytes, pos: 0, next: (encoder, next.clone()) }),
                };
                assert(Self::carries(bytes, encoder, next, writing));
                let message = Http1 { handler, reading, writing, keep_alive };
                let ghost begun = message;
                let mut state = State::Http1(message);
                state.update(next);
                let conn = Conn { buf, state, transport };
                assert(State::Http1(begun).moves(next@, conn.status()));
                assert(this.sends(handler, filled, next, conn));
                conn
            },
            state => Conn { buf, state, transport },
        }
    }

    /// Has the handler write to the body that goes out, and moves the
    /// connection on as it answers.
    pub fn encode(self) -> (conn: Self)
        requires
            self.wf(),
            self.status() matches State::Http1(http1) && http1.writing is Ready,
        ensures
            conn.wf(),
            self.encodes(conn),
    {
        let Conn { buf, state, transport } = self;
        match state {
            State::Http1(Http1 { handler, reading, writing: Writing::Ready(body), keep_alive }) => {
                let encoded = encode(handler, body, transport);
                let Encoded { handler, body, transport, next } = encoded;
                let writing = Writing::Ready(body);
                let mut state = State::Http1(Http1 { handler, reading, writing, keep_alive });
                state.update(next);
                Conn { buf, state, transport }
            },
            state => Conn { buf, state, transport },
        }
    }

    /// Goes on with what came of writing the bytes of a head that were not
    /// written yet.
    pub fn write(self, put: Result<usize, IoError>) -> (conn: Self)
        requires
            self.wf(),
            self.status() matches State::Http1(http1) && http1.writing is Chunk,
            put matches Ok(n) ==> n <= self.unsent().len(),
        ensures
            conn.wf(),
            self.writes(put, conn),
    {
        let Conn { buf, state, transport } = self;
        match state {
            State::Http1(
                Http1 { handler, reading, writing: Writing::Chunk(mut chunk), keep_alive },
            ) => match put {
                Ok(n) => {
                    let len = chunk.buf.len();
                    chunk.pos = chunk.pos + n;
                    let next = if chunk.pos >= len {
                        Some(chunk.next.1.clone())
                    } else {
                        None
                    };
                    let writing = Writing::Chunk(chunk);
                    let mut state = State::Http1(Http1 { handler, reading, writing, keep_alive });
                    if let Some(next) = next {
                        state.update(next);
                    }
                    Conn { buf, state, transport }
                },
                Err(IoError::WouldBlock) | Err(IoError::Interrupted) => {
                    let writing = Writing::Chunk(chunk);
                    let state = State::Http1(Http1 { handler, reading, writing, keep_alive });
                    Conn { buf, state, transport }
                },
                Err(IoError::Other) => Conn { buf, state: State::Closed, transport },
            },
            state => Conn { buf, state, transport },
        }
    }
}

} // verus!
