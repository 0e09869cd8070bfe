//! The bytes that were taken from the transport and not used yet.
use vstd::prelude::*;

verus! {

/// Bytes that wait to be used, in the order in which they came.
#[derive(Debug)]
pub struct Buffer {
    vec: Vec<u8>,
}

impl View for Buffer {
    type V = Seq<u8>;

    closed spec fn view(&self) -> Seq<u8> {
        self.vec@
    }
}

/// What is left of `bytes` when the first `n` are gone; nothing where there
/// are no more than `n`.
pub open spec fn after(bytes: Seq<u8>, n: int) -> Seq<u8> {
    if n <= bytes.len() {
        bytes.skip(n)
    } else {
        Seq::empty()
    }
}

impl Buffer {
    /// A buffer without bytes.
    pub fn new() -> (buffer: Buffer)
        ensures
            buffer@ == Seq::<u8>::empty(),
    {
        Buffer { vec: Vec::new() }
    }

    /// How many bytes wait.
    pub fn len(&self) -> (n: usize)
        ensures
            n == self@.len(),
    {
        self.vec.len()
    }

    /// Whether no byte waits.
    pub fn is_empty(&self) -> (yes: bool)
        ensures
            yes == (self@.len() == 0),
    {
        self.vec.len() == 0
    }

    /// The bytes that wait.
    pub fn bytes(&self) -> (bytes: &[u8])
        ensures
            bytes@ == self@,
    {
        self.vec.as_slice()
    }

    /// Takes the first `n` bytes away, or all of them where there are fewer.
    pub fn consume(&mut self, n: usize)
        ensures
            final(self)@ == after(old(self)@, n as int),
    {
        if n < self.vec.len() {
            let rest = self.vec.split_off(n);
            self.vec = rest;
        } else {
            self.vec.clear();
        }
    }

    /// Puts bytes behind those that wait.
    pub fn put(&mut self, mut bytes: Vec<u8>)
        ensures
            final(self)@ == old(self)@ + bytes@,
    {
        self.vec.append(&mut bytes);
    }
}

} // verus!
