//! One turn of a connection in the event loop: what follows on an event, up
//! to the point where the connection is registered again or gone.
//!
//! A turn stops wherever the transport or the event loop has to do something,
//! and goes on with what came of it.
use super::{Conn, IoError};
use crate::events::{either, event_kinds, READABLE, WRITABLE};
use crate::handler::{MessageHandler, MessageHandlerFactory};
use crate::next::Reg;
use crate::state::{Http1, State, Writing};
use rotor::EventSet;
use vstd::prelude::*;

verus! {

/// What a turn needs done next.
#[derive(Debug, Clone, Copy)]
pub enum Stage {
    /// The transport is readable, and also writable if `writable` says so.
    Readable { writable: bool },
    /// Bytes are to be read from the transport, which is also writable if
    /// `writable` says so.
    Fill { writable: bool },
    /// The transport is writable.
    Writable,
    /// The pending bytes are to be written to the transport.
    Flush,
    /// The transport is to be registered again, for these events.
    Reregister(EventSet),
    /// The transport is to be taken out of the event loop.
    Deregister,
}

/// A connection in the middle of a turn.
pub struct Turn<T, H: MessageHandler<T>> {
    conn: Conn<T, H>,
    stage: Stage,
}

/// The kinds of event that a registration stands for.
pub open spec fn kinds(reg: Reg) -> Set<usize> {
    match reg {
        Reg::Read => set![READABLE],
        Reg::Write => set![WRITABLE],
        Reg::ReadWrite => set![READABLE, WRITABLE],
        _ => Set::empty(),
    }
}

impl<T, H: MessageHandler<T>> Conn<T, H> {
    /// Whether the stage can come up for this connection: bytes are only read
    /// while no message is under way, and only written while a head is.
    pub open spec fn admits(self, stage: Stage) -> bool {
        match stage {
            Stage::Fill { .. } => self.status() is Init,
            Stage::Flush => self.status() matches State::Http1(http1) && http1.writing is Chunk,
            _ => true,
        }
    }

    /// Begins the turn that the given events bring.
    pub fn ready(self, events: EventSet) -> (turn: Turn<T, H>)
        requires
            self.wf(),
        ensures
            turn.wf(),
            turn.connection() == self,
            event_kinds(events).contains(READABLE) ==> turn.due() == (Stage::Readable {
                writable: event_kinds(events).contains(WRITABLE),
            }),
            !event_kinds(events).contains(READABLE) ==> turn.resumes(
                event_kinds(events).contains(WRITABLE),
            ),
    {
        let writable = events.is_writable();
        if events.is_readable() {
            Turn { conn: self, stage: Stage::Readable { writable } }
        } else {
            Turn::resume(self, writable)
        }
    }
}

impl<T, H: MessageHandler<T>> Turn<T, H> {
    /// The connection whose turn it is.
    pub closed spec fn connection(self) -> Conn<T, H> {
        self.conn
    }

    /// What the turn needs done next.
    pub closed spec fn due(self) -> Stage {
        self.stage
    }

    /// The connection is well-formed, and what is due can come up for it.
    pub open spec fn wf(self) -> bool {
        &&& self.connection().wf()
        &&& self.connection().admits(self.due())
    }

    /// Whether the turn is at its end: the connection is to be registered for
    /// what it asks for, or taken out of the event loop if it asks for that.
    pub open spec fn settles(self) -> bool {
        exists|reg: Reg|
            {
                &&& #[trigger] self.connection().asks(reg)
                &&& match self.due() {
                    Stage::Deregister => reg == Reg::Remove,
                    Stage::Reregister(events) => reg != Reg::Remove && event_kinds(events)
                        == kinds(reg),
                    _ => false,
                }
            }
    }

    /// Whether the turn is done with reading: a writable transport comes up
    /// next, and the end of the turn otherwise.
    pub open spec fn resumes(self, writable: bool) -> bool {
        if writable {
            self.due() is Writable
        } else {
            self.settles()
        }
    }

    /// The connection of a turn, if there is one.
    pub open spec fn connections(turn: Option<Self>) -> Option<Conn<T, H>> {
        match turn {
            Some(turn) => Some(turn.connection()),
            None => None,
        }
    }

    fn settle(conn: Conn<T, H>) -> (turn: Self)
        requires
            conn.wf(),
        ensures
            turn.wf(),
            turn.connection() == conn,
            turn.settles(),
    {
        let reg = conn.interest();
        let stage = match reg {
            Reg::Read => Stage::Reregister(EventSet::readable()),
            Reg::Write => Stage::Reregister(EventSet::writable()),
            Reg::ReadWrite => Stage::Reregister(
                either(EventSet::readable(), EventSet::writable()),
            ),
            Reg::Wait => Stage::Reregister(EventSet::none()),
            Reg::Remove => Stage::Deregister,
        };
        proof {
            if let Stage::Reregister(events) = stage {
                assert(event_kinds(events) =~= kinds(reg));
            }
        }
        Turn { conn, stage }
    }

    fn resume(conn: Conn<T, H>, writable: bool) -> (turn: Self)
        requires
            conn.wf(),
        ensures
            turn.wf(),
            turn.connection() == conn,
            turn.resumes(writable),
    {
        if writable {
            Turn { conn, stage: Stage::Writable }
        } else {
            Turn::settle(conn)
        }
    }

    /// What the turn needs done next.
    pub fn stage(&self) -> (stage: Stage)
        ensures
            stage == self.due(),
    {
        self.stage
    }

    /// The connection whose turn it is.
    pub fn conn(&self) -> (conn: &Conn<T, H>)
        ensures
            *conn == self.connection(),
    {
        &self.conn
    }

    /// Lends the transport, for bytes to be read from it or written to it.
    pub fn transport_mut(&mut self) -> (transport: &mut T)
        requires
            old(self).wf(),
        ensures
            final(self).wf(),
            *transport == old(self).connection().port(),
            final(self).due() == old(self).due(),
            final(self).connection().status() == old(self).connection().status(),
            final(self).connection().buffer() == old(self).connection().buffer(),
            final(self).connection().port() == *final(transport),
    {
        &mut self.conn.transport
    }

    /// Takes up a readable transport. Where no message is under way bytes are
    /// to be read from it; where a body is being read the handler goes on
    /// with that; a connection that is over is left alone.
    pub fn on_readable(self) -> (turn: Self)
        requires
            self.wf(),
            self.due() is Readable,
            self.connection().takes_readable(),
        ensures
            turn.wf(),
            self.due() matches Stage::Readable { writable } && match self.connection().status() {
                State::Init => {
                    &&& turn.connection() == self.connection()
                    &&& turn.due() == (Stage::Fill { writable })
                },
                State::Http1(_) => {
                    &&& self.connection().decodes(turn.connection())
                    &&& turn.resumes(writable)
                },
                State::Closed => {
                    &&& turn.connection() == self.connection()
                    &&& turn.resumes(writable)
                },
            },
    {
        let Turn { conn, stage } = self;
        let writable = match stage {
            Stage::Readable { writable } => writable,
            _ => false,
        };
        match &conn.state {
            State::Init => Turn { conn, stage: Stage::Fill { writable } },
            State::Http1(_) => Turn::resume(conn.decode(), writable),
            State::Closed => Turn::resume(conn, writable),
        }
    }

    /// Goes on with what was read from the transport. There is no turn to go
    /// on with where the handler of a new message does not want anything.
    pub fn read<F: MessageHandlerFactory<T, Output = H>>(
        self,
        factory: &mut F,
        got: Result<Vec<u8>, IoError>,
    ) -> (end: Option<Self>)
        requires
            self.wf(),
            self.due() is Fill,
            old(factory).can_create(),
        ensures
            end matches Some(turn) ==> {
                &&& turn.wf()
                &&& self.due() matches Stage::Fill { writable } && turn.resumes(writable)
            },
            exists|made: Option<H>|
                {
                    &&& #[trigger] self.connection().reads(got, made, Turn::connections(end))
                    &&& match made {
                        None => *final(factory) == *old(factory),
                        Some(handler) => exists|maker: &mut F|
                            {
                                &&& #[trigger] call_ensures(F::create, (maker,), handler)
                                &&& *maker == *old(factory)
                                &&& *final(maker) == *final(factory)
                            },
                    }
                },
    {
        let Turn { conn, stage } = self;
        let writable = match stage {
            Stage::Fill { writable } => writable,
            _ => false,
        };
        match conn.read(factory, got) {
            Some(conn) => Some(Turn::resume(conn, writable)),
            None => None,
        }
    }

    /// Takes up a writable transport. The handler fills in a head that is to
    /// be written, or goes on with a body that is being written; for a head
    /// that is being written its bytes are to be written to the transport;
    /// a connection that is over or has nothing left to write is left alone.
    pub fn on_writable(self) -> (turn: Self)
        requires
            self.wf(),
            self.due() is Writable,
            self.connection().takes_writable(),
        ensures
            turn.wf(),
            match self.connection().status() {
                State::Http1(Http1 { writing: Writing::Head, .. }) => {
                    &&& self.connection().heads(turn.connection())
                    &&& turn.settles()
                },
                State::Http1(Http1 { writing: Writing::Chunk(_), .. }) => {
                    &&& turn.connection() == self.connection()
                    &&& turn.due() is Flush
                },
                State::Http1(Http1 { writing: Writing::Ready(_), .. }) => {
                    &&& self.connection().encodes(turn.connection())
                    &&& turn.settles()
                },
                _ => {
                    &&& turn.connection() == self.connection()
                    &&& turn.settles()
                },
            },
    {
        let Turn { conn, .. } = self;
        match &conn.state {
            State::Http1(http1) => match &http1.writing {
                Writing::Head => Turn::settle(conn.head()),
                Writing::Chunk(_) => Turn { conn, stage: Stage::Flush },
                Writing::Ready(_) => Turn::settle(conn.encode()),
                _ => Turn::settle(conn),
            },
            _ => Turn::settle(conn),
        }
    }

    /// Goes on with what came of writing the pending bytes to the transport.
    pub fn write(self, put: Result<usize, IoError>) -> (turn: Self)
        requires
            self.wf(),
            self.due() is Flush,
            put matches Ok(n) ==> n <= self.connection().unsent().len(),
        ensures
            turn.wf(),
            self.connection().writes(put, turn.connection()),
            turn.settles(),
    {
        Turn::settle(self.conn.write(put))
    }

    /// Ends the turn. The connection lives on only if it was to be registered
    /// again and that was done.
    pub fn finish(self, registered: bool) -> (conn: Option<Conn<T, H>>)
        requires
            self.due() is Reregister || self.due() is Deregister,
        ensures
            conn == if self.due() is Reregister && registered {
                Some(self.connection())
            } else {
                None
            },
    {
        match self.stage {
            Stage::Reregister(_) if registered => Some(self.conn),
            _ => None,
        }
    }
}

} // verus!
