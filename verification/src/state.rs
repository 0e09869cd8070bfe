//! The state of a connection, and how the answer of a handler moves it on.
use crate::message::{BodyDecoder, BodyEncoder};
use crate::next::{Next, Next_, Reg};
use vstd::prelude::*;

verus! {

/// The state of a connection whose handlers are of type `H`, with bodies that
/// are framed by `D` on the way in and by `E` on the way out.
pub enum State<H, D, E> {
    /// No message is under way.
    Init,
    /// A message is under way. A connection is only ever used for a single
    /// message at a time, though others may follow where it is kept alive.
    Http1(Http1<H, D, E>),
    /// The connection is over.
    Closed,
}

/// A message that is under way.
pub struct Http1<H, D, E> {
    /// Who handles the message.
    pub handler: H,
    /// How far the message that comes in was read.
    pub reading: Reading<D>,
    /// How far the message that goes out was written.
    pub writing: Writing<E>,
    /// Whether both sides want the connection kept for another message.
    pub keep_alive: bool,
}

/// How far a message that comes in was read.
#[derive(Debug)]
pub enum Reading<D> {
    /// Nothing is to be read yet.
    Init,
    /// The head is to be read.
    Parse,
    /// The body is being read.
    Body(D),
    /// The body is not over, and the handler does not want to read it now.
    Wait(D),
    /// The body is over, and the connection may be used again.
    KeepAlive,
    /// The body is over, and so is the connection.
    Closed,
}

/// How far a message that goes out was written.
#[derive(Debug)]
pub enum Writing<E> {
    /// Nothing is to be written yet.
    Init,
    /// The head is to be written.
    Head,
    /// The bytes of the head are being written.
    Chunk(Chunk<E>),
    /// The body is being written.
    Ready(E),
    /// The body is not over, and the handler does not want to write it now.
    Wait(E),
    /// The body is over, and the connection may be used again.
    KeepAlive,
    /// The body is over, and so is the connection.
    Closed,
}

/// Bytes of a head on their way out, those before `pos` being gone already,
/// and what the handler answered for when all are gone.
#[derive(Debug)]
pub struct Chunk<E> {
    pub buf: Vec<u8>,
    pub pos: usize,
    pub next: (E, Next),
}

/// What becomes of a half of a message whose body is over: it waits for the
/// next message or it closes.
pub open spec fn over<X>(kept: X, closed: X, keep_alive: bool) -> X {
    if keep_alive {
        kept
    } else {
        closed
    }
}

impl<D> Reading<D> {
    /// Reading again after a pause; no change where there was none.
    pub open spec fn resumed(self) -> Self {
        match self {
            Reading::Wait(decoder) => Reading::Body(decoder),
            _ => self,
        }
    }

    /// No longer reading: a body that is over, as `eof` tells, is left
    /// behind, and another is put off.
    pub open spec fn paused(self, eof: bool, keep_alive: bool) -> Self {
        match self {
            Reading::Body(decoder) => if eof {
                over(Reading::KeepAlive, Reading::Closed, keep_alive)
            } else {
                Reading::Wait(decoder)
            },
            _ => self,
        }
    }

    /// Whether the message that comes in is over without its half being
    /// closed, where `eof` tells of a body that is being read if it is over.
    pub open spec fn ended(self, eof: bool) -> bool {
        self is KeepAlive || self is Body && eof
    }
}

impl<E> Writing<E> {
    /// Writing again after a pause; no change where there was none.
    pub open spec fn resumed(self) -> Self {
        match self {
            Writing::Wait(encoder) => Writing::Ready(encoder),
            _ => self,
        }
    }

    /// No longer writing: a body that is over, as `eof` tells, is left
    /// behind, and another is put off.
    pub open spec fn paused(self, eof: bool, keep_alive: bool) -> Self {
        match self {
            Writing::Ready(encoder) => if eof {
                over(Writing::KeepAlive, Writing::Closed, keep_alive)
            } else {
                Writing::Wait(encoder)
            },
            _ => self,
        }
    }

    /// Whether the message that goes out is over without its half being
    /// closed, where `eof` tells of a body that is being written if it is over.
    pub open spec fn ended(self, eof: bool) -> bool {
        self is KeepAlive || self is Ready && eof
    }

    /// The bytes of the head that are not written yet.
    pub open spec fn unsent(self) -> Seq<u8> {
        match self {
            Writing::Chunk(chunk) => chunk.buf@.skip(chunk.pos as int),
            _ => Seq::empty(),
        }
    }

    /// No more bytes of a head were written than it has.
    pub open spec fn wf(self) -> bool {
        self matches Writing::Chunk(chunk) ==> chunk.pos <= chunk.buf@.len()
    }
}

impl<H, D, E> Http1<H, D, E> {
    /// The message after the handler asked for something other than to end
    /// it. `decoded` and `encoded` tell if a body that is being read or
    /// written is over.
    pub open spec fn updated(self, next: Next_, decoded: bool, encoded: bool) -> Self {
        match next {
            Next_::Read => Http1 {
                reading: self.reading.resumed(),
                writing: self.writing.paused(encoded, self.keep_alive),
                ..self
            },
            Next_::Write => Http1 {
                reading: self.reading.paused(decoded, self.keep_alive),
                writing: self.writing.resumed(),
                ..self
            },
            Next_::ReadWrite => Http1 {
                reading: self.reading.resumed(),
                writing: self.writing.resumed(),
                ..self
            },
            _ => self,
        }
    }

    /// Whether the message is over in both directions and leaves the
    /// connection open for another one, which it does only where the
    /// connection is kept alive.
    pub open spec fn ended(self, decoded: bool, encoded: bool) -> bool {
        self.keep_alive && self.reading.ended(decoded) && self.writing.ended(encoded)
    }

    /// Whether there is something to be read for the message.
    pub open spec fn reads(self) -> bool {
        self.reading is Parse || self.reading is Body
    }

    /// Whether there is something to be written for the message.
    pub open spec fn writes(self) -> bool {
        self.writing is Head || self.writing is Chunk || self.writing is Ready
    }

    /// What the message needs the event loop to watch for: what it reads and
    /// writes, and nothing at all once both directions are closed.
    pub open spec fn registration(self) -> Reg {
        if self.reading is Closed && self.writing is Closed {
            Reg::Remove
        } else if self.reads() && self.writes() {
            Reg::ReadWrite
        } else if self.reads() {
            Reg::Read
        } else if self.writes() {
            Reg::Write
        } else {
            Reg::Wait
        }
    }

    /// What the message needs the event loop to watch for.
    pub fn interest(&self) -> (reg: Reg)
        ensures
            reg == self.registration(),
    {
        match (&self.reading, &self.writing) {
            (Reading::Closed, Writing::Closed) => Reg::Remove,
            (reading, writing) => {
                let read = match reading {
                    Reading::Parse | Reading::Body(..) => Reg::Read,
                    _ => Reg::Wait,
                };
                let write = match writing {
                    Writing::Head | Writing::Chunk(..) | Writing::Ready(..) => Reg::Write,
                    _ => Reg::Wait,
                };
                match (read, write) {
                    (Reg::Read, Reg::Write) => Reg::ReadWrite,
                    (Reg::Read, _) => Reg::Read,
                    (_, write) => write,
                }
            },
        }
    }
}

impl<H, D, E> State<H, D, E> {
    /// The state after a handler answered `next`. `decoded` and `encoded`
    /// tell if a body that is being read or written is over.
    pub open spec fn updated(self, next: Next_, decoded: bool, encoded: bool) -> Self {
        match self {
            _ if next == Next_::Remove => State::Closed,
            State::Init => State::Init,
            State::Closed => State::Closed,
            State::Http1(http1) => if next == Next_::End {
                if http1.ended(decoded, encoded) {
                    State::Init
                } else {
                    State::Closed
                }
            } else {
                State::Http1(http1.updated(next, decoded, encoded))
            },
        }
    }

    /// No more bytes of a head were written than it has.
    pub open spec fn wf(self) -> bool {
        self matches State::Http1(http1) ==> http1.writing.wf()
    }
}

impl<H, D: BodyDecoder, E: BodyEncoder> State<H, D, E> {
    /// Whether `encoded` is what the body that is being written says of its
    /// end, where `next` makes that matter.
    pub open spec fn encoder_says(self, next: Next_, encoded: bool) -> bool {
        match self {
            State::Http1(Http1 { reading, writing: Writing::Ready(encoder), .. }) => {
                (next == Next_::Read || next == Next_::End && (reading is KeepAlive
                    || reading is Body)) ==> call_ensures(E::is_eof, (&encoder,), encoded)
            },
            _ => true,
        }
    }

    /// Whether `decoded` is what the body that is being read says of its end,
    /// where `next` makes that matter.
    pub open spec fn decoder_says(self, next: Next_, decoded: bool, encoded: bool) -> bool {
        match self {
            State::Http1(Http1 { reading: Reading::Body(decoder), writing, .. }) => {
                (next == Next_::Write || next == Next_::End && writing.ended(encoded))
                    ==> call_ensures(D::is_eof, (&decoder,), decoded)
            },
            _ => true,
        }
    }

    /// The state that a new message starts in when its handler answered `next`
    /// to its head: reading the body goes on where the handler wants to read,
    /// the head of the message that goes out is up where it wants to write.
    /// `decoded` tells if the body is over before it was read.
    pub open spec fn begun(
        handler: H,
        next: Next_,
        decoder: D,
        keep_alive: bool,
        decoded: bool,
    ) -> Self {
        let body = Reading::Body(decoder);
        match next {
            Next_::Read => State::Http1(
                Http1 { handler, reading: body, writing: Writing::Init, keep_alive },
            ),
            Next_::ReadWrite => State::Http1(
                Http1 { handler, reading: body, writing: Writing::Head, keep_alive },
            ),
            Next_::Write => State::Http1(
                Http1 {
                    handler,
                    reading: body.paused(decoded, keep_alive),
                    writing: Writing::Head,
                    keep_alive,
                },
            ),
            _ => State::Closed,
        }
    }

    /// Whether a new message may start in the state `after`, its handler
    /// having answered `next` to its head.
    pub open spec fn begins(
        handler: H,
        next: Next_,
        decoder: D,
        keep_alive: bool,
        after: Self,
    ) -> bool {
        exists|decoded: bool|
            {
                &&& next == Next_::Write ==> call_ensures(D::is_eof, (&decoder,), decoded)
                &&& after == #[trigger] Self::begun(handler, next, decoder, keep_alive, decoded)
            }
    }

    /// The state that a new message starts in when its handler answered `next`
    /// to its head. There is none for a handler that does not want anything.
    pub fn begin(handler: H, next: Next, decoder: D, keep_alive: bool) -> (state: Self)
        requires
            next@ != Next_::Wait,
        ensures
            Self::begins(handler, next@, decoder, keep_alive, state),
    {
        let mut decoded: bool = false;
        let ghost framing = decoder;
        let state = match next.wish() {
            Next_::Read => State::Http1(
                Http1 {
                    handler,
                    reading: Reading::Body(decoder),
                    writing: Writing::Init,
                    keep_alive,
                },
            ),
            Next_::Write => {
                decoded = decoder.is_eof();
                let reading = if decoded {
                    if keep_alive {
                        Reading::KeepAlive
                    } else {
                        Reading::Closed
                    }
                } else {
                    Reading::Wait(decoder)
                };
                State::Http1(Http1 { handler, reading, writing: Writing::Head, keep_alive })
            },
            Next_::ReadWrite => State::Http1(
                Http1 {
                    handler,
                    reading: Reading::Body(decoder),
                    writing: Writing::Head,
                    keep_alive,
                },
            ),
            _ => State::Closed,
        };
        assert(state == Self::begun(handler, next@, framing, keep_alive, decoded));
        state
    }

    /// Whether the answer `next` moves this state to `after`.
    pub open spec fn moves(self, next: Next_, after: Self) -> bool {
        exists|decoded: bool, encoded: bool|
            {
                &&& self.encoder_says(next, encoded)
                &&& self.decoder_says(next, decoded, encoded)
                &&& after == #[trigger] self.updated(next, decoded, encoded)
            }
    }

    /// Moves the state on after a handler answered `next`.
    pub fn update(&mut self, next: Next)
        ensures
            old(self).moves(next@, *final(self)),
    {
        let mut state = State::Closed;
        core::mem::swap(self, &mut state);
        let ghost before = state;
        let mut decoded: bool = false;
        let mut encoded: bool = false;
        let new_state = match (state, next.wish()) {
            (_, Next_::Remove) => State::Closed,
            (State::Closed, _) => State::Closed,
            (State::Init, _) => State::Init,
            (State::Http1(http1), Next_::End) => {
                let keep_alive = http1.keep_alive;
                let ended = match (http1.reading, http1.writing) {
                    (Reading::KeepAlive, Writing::KeepAlive) => true,
                    (Reading::KeepAlive, Writing::Ready(encoder)) => {
                        encoded = encoder.is_eof();
                        encoded
                    },
                    (Reading::Body(decoder), Writing::KeepAlive) => {
                        decoded = decoder.is_eof();
                        decoded
                    },
                    (Reading::Body(decoder), Writing::Ready(encoder)) => {
                        encoded = encoder.is_eof();
                        if encoded {
                            decoded = decoder.is_eof();
                        }
                        encoded && decoded
                    },
                    _ => false,
                };
                if ended && keep_alive {
                    State::Init
                } else {
                    State::Closed
                }
            },
            (State::Http1(mut http1), Next_::Read) => {
                http1.reading = match http1.reading {
                    Reading::Wait(decoder) => Reading::Body(decoder),
                    same => same,
                };
                http1.writing = match http1.writing {
                    Writing::Ready(encoder) => {
                        encoded = encoder.is_eof();
                        if encoded {
                            if http1.keep_alive {
                                Writing::KeepAlive
                            } else {
                                Writing::Closed
                            }
                        } else {
                            Writing::Wait(encoder)
                        }
                    },
                    same => same,
                };
                State::Http1(http1)
            },
            (State::Http1(mut http1), Next_::Write) => {
                http1.writing = match http1.writing {
                    Writing::Wait(encoder) => Writing::Ready(encoder),
                    same => same,
                };
                http1.reading = match http1.reading {
                    Reading::Body(decoder) => {
                        decoded = decoder.is_eof();
                        if decoded {
                            if http1.keep_alive {
                                Reading::KeepAlive
                            } else {
                                Reading::Closed
                            }
                        } else {
                            Reading::Wait(decoder)
                        }
                    },
                    same => same,
                };
                State::Http1(http1)
            },
            (State::Http1(mut http1), Next_::ReadWrite) => {
                http1.reading = match http1.reading {
                    Reading::Wait(decoder) => Reading::Body(decoder),
                    same => same,
                };
                http1.writing = match http1.writing {
                    Writing::Wait(encoder) => Writing::Ready(encoder),
                    same => same,
                };
                State::Http1(http1)
            },
            (state, Next_::Wait) => state,
        };
        assert(new_state == before.updated(next@, decoded, encoded));
        *self = new_state;
    }
}

} // verus!
