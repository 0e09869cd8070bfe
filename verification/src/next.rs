//! What a message handler asks for next, and what the event loop is told to
//! wait for because of it.
use vstd::prelude::*;

verus! {

/// The wish a [`Next`] carries.
#[derive(Debug, Clone, Copy, PartialEq, Eq, Structural)]
pub enum Next_ {
    /// Go on reading, leave writing alone.
    Read,
    /// Go on writing, leave reading alone.
    Write,
    /// Go on in both directions.
    ReadWrite,
    /// Leave everything as it is.
    Wait,
    /// The message is over.
    End,
    /// Give the connection up.
    Remove,
}

/// What a connection asks the event loop to watch for.
#[derive(Debug, Clone, Copy, PartialEq, Eq, Structural)]
pub enum Reg {
    /// Readable events.
    Read,
    /// Writable events.
    Write,
    /// Readable and writable events.
    ReadWrite,
    /// No events, but the connection stays.
    Wait,
    /// The connection is finished and leaves the event loop.
    Remove,
}

impl Reg {
    /// Whether readable events are asked for.
    pub open spec fn wants_read(self) -> bool {
        self == Reg::Read || self == Reg::ReadWrite
    }

    /// Whether writable events are asked for.
    pub open spec fn wants_write(self) -> bool {
        self == Reg::Write || self == Reg::ReadWrite
    }
}

/// The answer of a message handler: what it wants to do next.
#[must_use]
#[derive(Debug)]
pub struct Next {
    interest: Next_,
}

impl View for Next {
    type V = Next_;

    closed spec fn view(&self) -> Next_ {
        self.interest
    }
}

/// The registration that answers to a wish. Ending the message and giving
/// up the connection both take it out of the event loop.
pub open spec fn registration(next: Next_) -> Reg {
    match next {
        Next_::Read => Reg::Read,
        Next_::Write => Reg::Write,
        Next_::ReadWrite => Reg::ReadWrite,
        Next_::Wait => Reg::Wait,
        Next_::End => Reg::Remove,
        Next_::Remove => Reg::Remove,
    }
}

impl Next {
    /// An answer that carries the given wish.
    pub(crate) fn new(interest: Next_) -> (next: Next)
        ensures
            next@ == interest,
    {
        Next { interest }
    }

    /// The wish that the answer carries.
    pub(crate) fn wish(&self) -> (wish: Next_)
        ensures
            wish == self@,
    {
        self.interest
    }

    /// What the event loop is to watch for under this answer.
    pub fn interest(&self) -> (reg: Reg)
        ensures
            reg == registration(self@),
    {
        match self.interest {
            Next_::Read => Reg::Read,
            Next_::Write => Reg::Write,
            Next_::ReadWrite => Reg::ReadWrite,
            Next_::Wait => Reg::Wait,
            Next_::End => Reg::Remove,
            Next_::Remove => Reg::Remove,
        }
    }

    /// The handler wants to read.
    pub fn read() -> (next: Next)
        ensures
            next@ == Next_::Read,
    {
        Next::new(Next_::Read)
    }

    /// The handler wants to write.
    pub fn write() -> (next: Next)
        ensures
            next@ == Next_::Write,
    {
        Next::new(Next_::Write)
    }

    /// The handler wants to read and to write.
    pub fn read_and_write() -> (next: Next)
        ensures
            next@ == Next_::ReadWrite,
    {
        Next::new(Next_::ReadWrite)
    }

    /// The handler is done with the message.
    pub fn end() -> (next: Next)
        ensures
            next@ == Next_::End,
    {
        Next::new(Next_::End)
    }

    /// The handler wants nothing for now.
    pub fn wait() -> (next: Next)
        ensures
            next@ == Next_::Wait,
    {
        Next::new(Next_::Wait)
    }
}

impl Clone for Next {
    fn clone(&self) -> (next: Next)
        ensures
            next == *self,
    {
        Next { interest: self.interest }
    }
}

} // verus!
