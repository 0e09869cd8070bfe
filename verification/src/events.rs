//! The event sets of the event loop, as far as a connection reads and makes
//! them.
use rotor::EventSet;
use vstd::prelude::*;

verus! {

/// An event set of the event loop: a bit mask with one bit per kind of event.
#[verifier::external_type_specification]
#[verifier::external_body]
pub struct ExEventSet(EventSet);

/// The kinds of event that an event set holds, each given by its bit.
pub uninterp spec fn event_kinds(events: EventSet) -> Set<usize>;

/// The bit of readable events.
pub const READABLE: usize = 0x001;

/// The bit of writable events.
pub const WRITABLE: usize = 0x002;

/// `rotor::EventSet::none` returns the mask without a bit: no kind of event
/// is in it.
pub assume_specification[ EventSet::none ]() -> (events: EventSet)
    ensures
        event_kinds(events) == Set::<usize>::empty(),
;

/// `rotor::EventSet::readable` returns the mask whose only bit is that of
/// readable events.
pub assume_specification[ EventSet::readable ]() -> (events: EventSet)
    ensures
        event_kinds(events) == set![READABLE],
;

/// `rotor::EventSet::writable` returns the mask whose only bit is that of
/// writable events.
pub assume_specification[ EventSet::writable ]() -> (events: EventSet)
    ensures
        event_kinds(events) == set![WRITABLE],
;

/// `rotor::EventSet::is_readable` tests the bit of readable events.
pub assume_specification[ EventSet::is_readable ](events: &EventSet) -> (yes: bool)
    ensures
        yes == event_kinds(*events).contains(READABLE),
;

/// `rotor::EventSet::is_writable` tests the bit of writable events.
pub assume_specification[ EventSet::is_writable ](events: &EventSet) -> (yes: bool)
    ensures
        yes == event_kinds(*events).contains(WRITABLE),
;

/// The `|` of `rotor::EventSet` joins the bits of its operands, so a kind of
/// event is in the result where it is in one of them.
#[verifier::external_body]
pub(crate) fn either(a: EventSet, b: EventSet) -> (events: EventSet)
    ensures
        event_kinds(events) == event_kinds(a).union(event_kinds(b)),
{
    a | b
}

} // verus!
