//! What the answer of a handler does to a message, half by half.
use crate::message::{BodyDecoder, BodyEncoder};
use crate::next::{Next, Next_, Reg};
use crate::state::{Http1, Reading, State, Writing};
use vstd::prelude::*;

verus! {

/// Each answer is registered as its name says.
pub proof fn answers_do_as_they_are_named()
    ensures
        forall|next: Next, reg: Reg|
            call_ensures(Next::read, (), next) && #[trigger] call_ensures(
                Next::interest,
                (&next,),
                reg,
            ) ==> next@ == Next_::Read && reg == Reg::Read,
        forall|next: Next, reg: Reg|
            call_ensures(Next::write, (), next) && #[trigger] call_ensures(
                Next::interest,
                (&next,),
                reg,
            ) ==> next@ == Next_::Write && reg == Reg::Write,
        forall|next: Next, reg: Reg|
            call_ensures(Next::read_and_write, (), next) && #[trigger] call_ensures(
                Next::interest,
                (&next,),
                reg,
            ) ==> next@ == Next_::ReadWrite && reg == Reg::ReadWrite,
        forall|next: Next, reg: Reg|
            call_ensures(Next::wait, (), next) && #[trigger] call_ensures(
                Next::interest,
                (&next,),
                reg,
            ) ==> next@ == Next_::Wait && reg == Reg::Wait,
        forall|next: Next, reg: Reg|
            call_ensures(Next::end, (), next) && #[trigger] call_ensures(
                Next::interest,
                (&next,),
                reg,
            ) ==> next@ == Next_::End && reg == Reg::Remove,
        forall|next: Next, same: Next|
            #[trigger] call_ensures(<Next as Clone>::clone, (&next,), same) ==> same == next,
{
}

/// The event loop lets go of a connection for an answer exactly where that
/// ends the message or gives the connection up, and otherwise watches for what
/// the answer asks for.
pub proof fn only_endings_leave_the_event_loop(next: Next, reg: Reg)
    requires
        call_ensures(Next::interest, (&next,), reg),
    ensures
        reg == Reg::Remove <==> next@ == Next_::End || next@ == Next_::Remove,
        reg == Reg::Wait <==> next@ == Next_::Wait,
        reg == Reg::Read || reg == Reg::ReadWrite <==> next@ == Next_::Read || next@
            == Next_::ReadWrite,
        reg == Reg::Write || reg == Reg::ReadWrite <==> next@ == Next_::Write || next@
            == Next_::ReadWrite,
{
}

/// Where no message is under way an answer changes nothing, but for one that
/// gives the connection up, which closes it in every state.
pub proof fn only_messages_are_moved<H, D: BodyDecoder, E: BodyEncoder>()
    ensures
        forall|state: &mut State<H, D, E>, next: Next|
            #[trigger] call_ensures(State::<H, D, E>::update, (state, next), ()) ==> {
                &&& next@ == Next_::Remove ==> *final(state) is Closed
                &&& next@ != Next_::Remove && !(*state is Http1) ==> *final(state) == *state
                &&& next@ == Next_::Wait ==> *final(state) == *state
            },
{
}

/// An answer of read, write or both leaves the message under way, with its
/// handler and its mark for keeping the connection.
pub proof fn messages_go_on_until_they_end<H, D: BodyDecoder, E: BodyEncoder>()
    ensures
        forall|state: &mut State<H, D, E>, next: Next|
            #[trigger] call_ensures(State::<H, D, E>::update, (state, next), ()) && (next@
                == Next_::Read || next@ == Next_::Write || next@ == Next_::ReadWrite) ==> (
            *state matches State::Http1(message) ==> {
                &&& *final(state) matches State::Http1(later)
                &&& later.handler == message.handler
                &&& later.keep_alive == message.keep_alive
            }),
{
}

/// An answer that includes reading takes a body that was put off up again, and
/// touches no other half that comes in; an answer that includes writing does
/// the same for the half that goes out. This holds whatever the other half is
/// at.
pub proof fn wanted_halves_resume<H, D: BodyDecoder, E: BodyEncoder>()
    ensures
        forall|state: &mut State<H, D, E>, next: Next|
            #[trigger] call_ensures(State::<H, D, E>::update, (state, next), ()) && (next@
                == Next_::Read || next@ == Next_::ReadWrite) ==> (*state matches State::Http1(
                message,
            ) ==> {
                &&& *final(state) matches State::Http1(later)
                &&& match message.reading {
                    Reading::Wait(decoder) => later.reading == Reading::Body(decoder),
                    _ => later.reading == message.reading,
                }
            }),
        forall|state: &mut State<H, D, E>, next: Next|
            #[trigger] call_ensures(State::<H, D, E>::update, (state, next), ()) && (next@
                == Next_::Write || next@ == Next_::ReadWrite) ==> (*state matches State::Http1(
                message,
            ) ==> {
                &&& *final(state) matches State::Http1(later)
                &&& match message.writing {
                    Writing::Wait(encoder) => later.writing == Writing::Ready(encoder),
                    _ => later.writing == message.writing,
                }
            }),
{
}

/// An answer of write puts off a body that is being read, or leaves it behind
/// where the body says that it is over: then the half waits for another
/// message if the connection is kept, and closes if not. This holds whatever
/// the half that goes out is at, and no other half that comes in is touched.
pub proof fn writing_pauses_reading<H, D: BodyDecoder, E: BodyEncoder>()
    ensures
        forall|state: &mut State<H, D, E>, next: Next|
            #[trigger] call_ensures(State::<H, D, E>::update, (state, next), ()) && next@
                == Next_::Write ==> (*state matches State::Http1(message) ==> {
                &&& *final(state) matches State::Http1(later)
                &&& match message.reading {
                    Reading::Body(decoder) => {
                        ||| later.reading == Reading::Wait(decoder) && call_ensures(
                            D::is_eof,
                            (&decoder,),
                            false,
                        )
                        ||| later.reading is KeepAlive && message.keep_alive && call_ensures(
                            D::is_eof,
                            (&decoder,),
                            true,
                        )
                        ||| later.reading is Closed && !message.keep_alive && call_ensures(
                            D::is_eof,
                            (&decoder,),
                            true,
                        )
                    },
                    _ => later.reading == message.reading,
                }
            }),
{
}

/// An answer of read puts off a body that is being written, or leaves it
/// behind where the body says that it is over: then the half waits for another
/// message if the connection is kept, and closes if not. This holds whatever
/// the half that comes in is at, and no other half that goes out is touched.
pub proof fn reading_pauses_writing<H, D: BodyDecoder, E: BodyEncoder>()
    ensures
        forall|state: &mut State<H, D, E>, next: Next|
            #[trigger] call_ensures(State::<H, D, E>::update, (state, next), ()) && next@
                == Next_::Read ==> (*state matches State::Http1(message) ==> {
                &&& *final(state) matches State::Http1(later)
                &&& match message.writing {
                    Writing::Ready(encoder) => {
                        ||| later.writing == Writing::Wait(encoder) && call_ensures(
                            E::is_eof,
                            (&encoder,),
                            false,
                        )
                        ||| later.writing is KeepAlive && message.keep_alive && call_ensures(
                            E::is_eof,
                            (&encoder,),
                            true,
                        )
                        ||| later.writing is Closed && !message.keep_alive && call_ensures(
                            E::is_eof,
                            (&encoder,),
                            true,
                        )
                    },
                    _ => later.writing == message.writing,
                }
            }),
{
}

/// At the end of a message the connection waits for another one or is over.
/// It waits only if it is kept, the half that comes in is left behind or its
/// body says that it is over, and the same holds of the half that goes out;
/// it is over only if one of these fails.
pub proof fn kept_and_finished_messages_make_room<H, D: BodyDecoder, E: BodyEncoder>()
    ensures
        forall|state: &mut State<H, D, E>, next: Next|
            #[trigger] call_ensures(State::<H, D, E>::update, (state, next), ()) && next@
                == Next_::End ==> (*state matches State::Http1(message) ==> match *final(state) {
                State::Http1(_) => false,
                State::Init => {
                    &&& message.keep_alive
                    &&& match message.reading {
                        Reading::KeepAlive => true,
                        Reading::Body(decoder) => call_ensures(D::is_eof, (&decoder,), true),
                        _ => false,
                    }
                    &&& match message.writing {
                        Writing::KeepAlive => true,
                        Writing::Ready(encoder) => call_ensures(E::is_eof, (&encoder,), true),
                        _ => false,
                    }
                },
                State::Closed => {
                    ||| !message.keep_alive
                    ||| match message.reading {
                        Reading::KeepAlive => false,
                        Reading::Body(decoder) => call_ensures(D::is_eof, (&decoder,), false),
                        _ => true,
                    }
                    ||| match message.writing {
                        Writing::KeepAlive => false,
                        Writing::Ready(encoder) => call_ensures(E::is_eof, (&encoder,), false),
                        _ => true,
                    }
                },
            }),
{
}

/// Once both bodies of a kept message are over, the end of it makes room for
/// another message, whatever answers of read, write or both were given in
/// between.
pub proof fn finished_messages_make_room_in_the_end<H, D: BodyDecoder, E: BodyEncoder>(
    states: Seq<State<H, D, E>>,
    answers: Seq<Next_>,
    message: Http1<H, D, E>,
    after: State<H, D, E>,
)
    requires
        states.len() == answers.len() + 1,
        states[0] == State::Http1(message),
        message.keep_alive,
        match message.reading {
            Reading::KeepAlive => true,
            Reading::Body(decoder) => forall|over: bool|
                call_ensures(D::is_eof, (&decoder,), over) ==> over,
            _ => false,
        },
        match message.writing {
            Writing::KeepAlive => true,
            Writing::Ready(encoder) => forall|over: bool|
                call_ensures(E::is_eof, (&encoder,), over) ==> over,
            _ => false,
        },
        forall|i: int|
            0 <= i < answers.len() ==> {
                &&& answers[i] == Next_::Read || answers[i] == Next_::Write || answers[i]
                    == Next_::ReadWrite
                &&& (#[trigger] states[i]).moves(answers[i], states[i + 1])
            },
        states.last().moves(Next_::End, after),
    ensures
        after is Init,
    decreases answers.len(),
{
    if answers.len() > 0 {
        assert(states[0].moves(answers[0], states[1]));
        let later = states.skip(1);
        let rest = answers.skip(1);
        assert forall|i: int| 0 <= i < rest.len() implies {
            &&& rest[i] == Next_::Read || rest[i] == Next_::Write || rest[i] == Next_::ReadWrite
            &&& (#[trigger] later[i]).moves(rest[i], later[i + 1])
        } by {
            assert(states[i + 1].moves(answers[i + 1], states[i + 2]));
        }
        finished_messages_make_room_in_the_end(later, rest, states[1]->Http1_0, after);
    }
}

/// A new message has the handler and the mark for keeping the connection that
/// it was begun with. Its body is being read where the handler wants to read;
/// where it only wants to write the body is put off, or left behind where it
/// says that it is over. The head that goes out is up exactly where the
/// handler wants to write. A handler that is done closes the connection.
pub proof fn new_messages_begin_as_wanted<H, D: BodyDecoder, E: BodyEncoder>(
    handler: H,
    next: Next,
    decoder: D,
    keep_alive: bool,
    state: State<H, D, E>,
)
    requires
        call_ensures(State::<H, D, E>::begin, (handler, next, decoder, keep_alive), state),
    ensures
        next@ == Next_::End || next@ == Next_::Remove ==> state is Closed,
        next@ == Next_::Read || next@ == Next_::Write || next@ == Next_::ReadWrite ==> {
            &&& state matches State::Http1(message)
            &&& message.handler == handler
            &&& message.keep_alive == keep_alive
            &&& if next@ == Next_::Read {
                message.writing is Init
            } else {
                message.writing is Head
            }
            &&& if next@ == Next_::Write {
                ||| message.reading == Reading::Wait(decoder) && call_ensures(
                    D::is_eof,
                    (&decoder,),
                    false,
                )
                ||| message.reading is KeepAlive && keep_alive && call_ensures(
                    D::is_eof,
                    (&decoder,),
                    true,
                )
                ||| message.reading is Closed && !keep_alive && call_ensures(
                    D::is_eof,
                    (&decoder,),
                    true,
                )
            } else {
                message.reading == Reading::Body(decoder)
            }
        },
{
}

/// A message is watched for readable events exactly while its head or body is
/// being read, for writable events exactly while its head or body is being
/// written, and let go exactly when both of its halves are closed.
pub proof fn messages_are_watched_for_what_is_open<H, D, E>(message: Http1<H, D, E>, reg: Reg)
    requires
        call_ensures(Http1::<H, D, E>::interest, (&message,), reg),
    ensures
        reg == Reg::Remove <==> message.reading is Closed && message.writing is Closed,
        reg == Reg::Read || reg == Reg::ReadWrite <==> message.reading is Parse
            || message.reading is Body,
        reg == Reg::Write || reg == Reg::ReadWrite <==> message.writing is Head
            || message.writing is Chunk || message.writing is Ready,
{
}

} // verus!
