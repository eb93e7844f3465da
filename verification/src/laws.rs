//! What holds of the flow as a whole, proved from the definitions of the
//! stages.

use crate::body::body_after_read;
use crate::error::FlowError;
use crate::flow::{next, ActionView, EventView, State};
use crate::header::{header_of, header_read, Header, HEADER_LEN};
use crate::text::{decoded, decoding_inverts_encoding};
use vstd::prelude::*;
use vstd::utf8::{encode_utf8, valid_utf8};

verus! {

/// The state reached from `state` after the events of `events`, in order.
pub open spec fn run(state: State, events: Seq<EventView>) -> State
    decreases events.len(),
{
    if events.len() == 0 {
        state
    } else {
        run(next(state, events[0]).0, events.drop_first())
    }
}

/// A read that delivers no more than the body's length leaves the delivered
/// bytes at the front and zeros behind them; the body keeps its announced
/// length.
pub proof fn short_read_is_padded_with_zeros(length: nat, delivered: Seq<u8>)
    requires
        delivered.len() <= length,
    ensures
        body_after_read(length, delivered).len() == length,
        body_after_read(length, delivered) == delivered + Seq::new(
            (length - delivered.len()) as nat,
            |i: int| 0u8,
        ),
{
    assert(body_after_read(length, delivered) =~= delivered + Seq::new(
        (length - delivered.len()) as nat,
        |i: int| 0u8,
    ));
}

/// A read never puts more into the body than the header announced: what
/// goes beyond the announced length is cut off.
pub proof fn long_read_is_cut(length: nat, delivered: Seq<u8>)
    requires
        delivered.len() >= length,
    ensures
        body_after_read(length, delivered) == delivered.subrange(0, length as int),
{
    assert(body_after_read(length, delivered) =~= delivered.subrange(0, length as int));
}

/// Text whose encoding has exactly the announced length and arrives in one
/// read comes out of body and decoder unchanged, and the flow reports it.
pub proof fn text_round_trip(header: Header, text: Seq<char>)
    requires
        encode_utf8(text).len() == header.length,
    ensures
        body_after_read(header.length as nat, encode_utf8(text)) == encode_utf8(text),
        decoded(body_after_read(header.length as nat, encode_utf8(text))) == Ok::<
            Seq<char>,
            FlowError,
        >(text),
        next(State::AwaitingBody { header }, EventView::Delivered { bytes: encode_utf8(text) })
            == (State::Decoded, ActionView::Report { outcome: Ok(text) }),
{
    assert(body_after_read(header.length as nat, encode_utf8(text)) =~= encode_utf8(text));
    decoding_inverts_encoding(text);
}

/// Fewer than eight bytes are no header: reading fails with
/// `IncompleteHeader`, and the flow closes at once.
pub proof fn short_header_closes_the_flow(delivered: Seq<u8>)
    requires
        delivered.len() < HEADER_LEN,
    ensures
        header_read(delivered) == Err::<Header, FlowError>(FlowError::IncompleteHeader),
        next(State::AwaitingHeader, EventView::Delivered { bytes: delivered }) == (
            State::Closed,
            ActionView::Abort { error: FlowError::IncompleteHeader },
        ),
{
}

/// Eight bytes or more always make a header, and the flow goes on to wait
/// for the body that header announces.
pub proof fn full_header_is_accepted(delivered: Seq<u8>)
    requires
        delivered.len() >= HEADER_LEN,
    ensures
        next(State::AwaitingHeader, EventView::Delivered { bytes: delivered }) == (
            State::AwaitingBody { header: header_of(delivered) },
            ActionView::ReadBody { header: header_of(delivered) },
        ),
{
}

/// A body that is not well-formed UTF-8 yields a decoding error, and that
/// error does not cut the flow short: the flow reaches `Decoded`, reports the
/// error there, and closes with the event after.
pub proof fn undecodable_body_still_finishes(header: Header, delivered: Seq<u8>, after: EventView)
    requires
        !valid_utf8(body_after_read(header.length as nat, delivered)),
    ensures
        decoded(body_after_read(header.length as nat, delivered)) == Err::<Seq<char>, FlowError>(
            FlowError::Decode,
        ),
        next(State::AwaitingBody { header }, EventView::Delivered { bytes: delivered }) == (
            State::Decoded,
            ActionView::Report { outcome: Err(FlowError::Decode) },
        ),
        next(State::Decoded, after) == (State::Closed, ActionView::Stop),
{
}

/// A stream found finished counts as a read that delivered nothing: the
/// body is all zero and is decoded like any other.
pub proof fn finished_stream_delivers_nothing(header: Header)
    ensures
        next(State::AwaitingBody { header }, EventView::Finished) == next(
            State::AwaitingBody { header },
            EventView::Delivered { bytes: Seq::empty() },
        ),
        body_after_read(header.length as nat, Seq::empty()) == Seq::new(
            header.length as nat,
            |i: int| 0u8,
        ),
{
    assert(body_after_read(header.length as nat, Seq::empty()) =~= Seq::new(
        header.length as nat,
        |i: int| 0u8,
    ));
}

/// A failure closes the flow from whatever state it is in. While the flow
/// still waits for something, the action names the error of that state.
pub proof fn failure_closes_the_flow(state: State)
    ensures
        next(state, EventView::Failed).0 == State::Closed,
        state.failure() matches Some(error) ==> next(state, EventView::Failed).1
            == (ActionView::Abort { error }),
        state.failure() is None ==> next(state, EventView::Failed).1 == ActionView::Stop,
{
}

/// Every error but `Decode` ends the flow: an action that aborts is always
/// paired with `Closed`, and the error it carries is never `Decode`.
pub proof fn abort_means_closed(state: State, event: EventView)
    ensures
        next(state, event).1 matches ActionView::Abort { error } ==> next(state, event).0
            == State::Closed && !error.recoverable(),
{
}

/// `Closed` is final: no event leads out of it or asks for more work.
pub proof fn closed_is_final(event: EventView)
    ensures
        next(State::Closed, event) == (State::Closed, ActionView::Stop),
{
}

/// No transition is a retry: a step either moves to the state that follows
/// in the flow or closes it.
pub proof fn no_step_goes_back(state: State, event: EventView)
    ensures
        next(state, event).0 == State::Closed || next(state, event).0.rank() == state.rank() + 1,
{
}

/// The flow cannot go on for ever: whatever the events are, six of them
/// close it, and fewer do where it has already advanced.
pub proof fn every_run_closes(state: State, events: Seq<EventView>)
    requires
        state.rank() + events.len() >= 6,
    ensures
        run(state, events) == State::Closed,
    decreases events.len(),
{
    if events.len() == 0 {
    } else {
        no_step_goes_back(state, events[0]);
        closed_is_final(events[0]);
        every_run_closes(next(state, events[0]).0, events.drop_first());
    }
}

} // verus!
