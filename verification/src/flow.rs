//! The flow of one connection as a state machine.
//!
//! ```text
//! Listening -> Handshaking -> AwaitingChannel -> AwaitingHeader
//!           -> AwaitingBody -> Decoded -> Closed
//! ```
//!
//! The machine never waits and never touches the network. Whoever drives it
//! performs the [`Action`] it hands out, reports what happened as an
//! [`Event`], and gets the next state and action back from [`step`]. A
//! failure in any state leads straight to `Closed`; no transition leads back
//! to an earlier state, so nothing is ever retried.

use crate::body::{body_after_read, read_body};
use crate::error::FlowError;
use crate::header::{header_read, read_header, Header};
use crate::text::{decode, decoded};
use vstd::prelude::*;

verus! {

/// Where the flow stands.
#[derive(Clone, Copy, Debug, PartialEq, Eq, Structural)]
pub enum State {
    /// Bound, waiting for a peer to start a session.
    Listening,
    /// A peer arrived; the secure handshake is running.
    Handshaking,
    /// Connected, waiting for the peer to open its first channel.
    AwaitingChannel,
    /// Channel open, waiting for the eight header bytes.
    AwaitingHeader,
    /// Header parsed, waiting for the one read of the body.
    AwaitingBody { header: Header },
    /// The body was read and decoding was attempted.
    Decoded,
    /// Finished, by success or by failure.
    Closed,
}

/// What the driver observed while carrying out the last action.
#[derive(Debug, PartialEq, Eq)]
pub enum Event {
    /// The awaited step succeeded and carries no data.
    Completed,
    /// The awaited read returned; `bytes` is what it delivered.
    Delivered { bytes: Vec<u8> },
    /// The awaited read found the stream finished, with nothing left in it.
    Finished,
    /// The server credential could not be produced or installed.
    CredentialRejected,
    /// The awaited step failed.
    Failed,
}

/// An [`Event`] with its bytes as a sequence.
pub ghost enum EventView {
    Completed,
    Delivered { bytes: Seq<u8> },
    Finished,
    CredentialRejected,
    Failed,
}

impl View for Event {
    type V = EventView;

    open spec fn view(&self) -> EventView {
        match self {
            Event::Completed => EventView::Completed,
            Event::Delivered { bytes } => EventView::Delivered { bytes: bytes@ },
            Event::Finished => EventView::Finished,
            Event::CredentialRejected => EventView::CredentialRejected,
            Event::Failed => EventView::Failed,
        }
    }
}

/// What the driver has to do next.
#[derive(Debug, PartialEq, Eq)]
pub enum Action {
    /// Present the credential, bind the address and wait for a peer.
    Bind,
    /// Wait for the handshake with the peer to finish.
    CompleteHandshake,
    /// Wait for the peer to open a bidirectional channel.
    AcceptChannel,
    /// Read exactly eight bytes from the channel.
    ReadHeader,
    /// Read once from the channel, at most `header.length` bytes.
    ReadBody { header: Header },
    /// Hand on the decoded text, or the decoding error.
    Report { outcome: Result<String, FlowError> },
    /// Hand on the error that ended the flow early.
    Abort { error: FlowError },
    /// Nothing is left to do.
    Stop,
}

/// An [`Action`] with its text as a sequence of characters.
pub ghost enum ActionView {
    Bind,
    CompleteHandshake,
    AcceptChannel,
    ReadHeader,
    ReadBody { header: Header },
    Report { outcome: Result<Seq<char>, FlowError> },
    Abort { error: FlowError },
    Stop,
}

impl View for Action {
    type V = ActionView;

    open spec fn view(&self) -> ActionView {
        match self {
            Action::Bind => ActionView::Bind,
            Action::CompleteHandshake => ActionView::CompleteHandshake,
            Action::AcceptChannel => ActionView::AcceptChannel,
            Action::ReadHeader => ActionView::ReadHeader,
            Action::ReadBody { header } => ActionView::ReadBody { header: *header },
            Action::Report { outcome } => ActionView::Report {
                outcome: match outcome {
                    Ok(text) => Ok(text@),
                    Err(error) => Err(*error),
                },
            },
            Action::Abort { error } => ActionView::Abort { error: *error },
            Action::Stop => ActionView::Stop,
        }
    }
}

impl State {
    /// How far the flow has come; `Closed` is last.
    pub open spec fn rank(self) -> nat {
        match self {
            State::Listening => 0,
            State::Handshaking => 1,
            State::AwaitingChannel => 2,
            State::AwaitingHeader => 3,
            State::AwaitingBody { .. } => 4,
            State::Decoded => 5,
            State::Closed => 6,
        }
    }

    /// The error that a failure in this state amounts to. `Decoded` and
    /// `Closed` await nothing that could fail.
    pub open spec fn failure(self) -> Option<FlowError> {
        match self {
            State::Listening => Some(FlowError::Bind),
            State::Handshaking => Some(FlowError::Handshake),
            State::AwaitingChannel => Some(FlowError::Channel),
            State::AwaitingHeader => Some(FlowError::IncompleteHeader),
            State::AwaitingBody { .. } => Some(FlowError::BodyRead),
            State::Decoded => None,
            State::Closed => None,
        }
    }

    /// A state can be stepped from unless it waits for a body too large for
    /// any buffer on this machine.
    pub open spec fn ready(self) -> bool {
        self matches State::AwaitingBody { header } ==> header.bufferable()
    }

    /// Tests [`State::ready`]. Always true where `usize` has 64 bits.
    pub fn is_ready(&self) -> (answer: bool)
        ensures
            answer == self.ready(),
    {
        match self {
            State::AwaitingBody { header } => header.fits_in_memory(),
            _ => true,
        }
    }

    /// Whether the flow is over.
    pub fn is_closed(&self) -> (answer: bool)
        ensures
            answer == (*self == State::Closed),
    {
        match self {
            State::Closed => true,
            _ => false,
        }
    }
}

/// The transition relation: the state and action that follow `event` in
/// `state`.
pub open spec fn next(state: State, event: EventView) -> (State, ActionView) {
    match (state, event) {
        (State::Listening, EventView::Completed) => (
            State::Handshaking,
            ActionView::CompleteHandshake,
        ),
        (State::Listening, EventView::CredentialRejected) => (
            State::Closed,
            ActionView::Abort { error: FlowError::Handshake },
        ),
        (State::Handshaking, EventView::Completed) => (
            State::AwaitingChannel,
            ActionView::AcceptChannel,
        ),
        (State::AwaitingChannel, EventView::Completed) => (
            State::AwaitingHeader,
            ActionView::ReadHeader,
        ),
        (State::AwaitingHeader, EventView::Delivered { bytes }) => match header_read(bytes) {
            Ok(header) => (State::AwaitingBody { header }, ActionView::ReadBody { header }),
            Err(error) => (State::Closed, ActionView::Abort { error }),
        },
        (State::AwaitingBody { header }, EventView::Delivered { bytes }) => (
            State::Decoded,
            ActionView::Report { outcome: decoded(body_after_read(header.length as nat, bytes)) },
        ),
        (State::AwaitingBody { header }, EventView::Finished) => (
            State::Decoded,
            ActionView::Report {
                outcome: decoded(body_after_read(header.length as nat, Seq::empty())),
            },
        ),
        (State::Decoded, _) => (State::Closed, ActionView::Stop),
        (State::Closed, _) => (State::Closed, ActionView::Stop),
        (waiting, _) => (State::Closed, ActionView::Abort { error: waiting.failure().unwrap() }),
    }
}

/// The state and the first action of a new flow.
pub fn start() -> (first: (State, Action))
    ensures
        first.0 == State::Listening,
        first.1@ == ActionView::Bind,
{
    (State::Listening, Action::Bind)
}

/// Takes one step of the flow.
///
/// In `AwaitingHeader` the delivered bytes are parsed as a header; in
/// `AwaitingBody` they are placed in a zero-filled body of the announced
/// length, which is then decoded. A stream that has finished delivers
/// nothing: the body stays all zero and is decoded as such. An event that the
/// state does not wait for counts as a failure of that state.
pub fn step(state: State, event: Event) -> (moved: (State, Action))
    requires
        state.ready(),
    ensures
        moved.0 == next(state, event@).0,
        moved.1@ == next(state, event@).1,
{
    match state {
        State::Listening => match event {
            Event::Completed => (State::Handshaking, Action::CompleteHandshake),
            Event::CredentialRejected => (
                State::Closed,
                Action::Abort { error: FlowError::Handshake },
            ),
            _ => (State::Closed, Action::Abort { error: FlowError::Bind }),
        },
        State::Handshaking => match event {
            Event::Completed => (State::AwaitingChannel, Action::AcceptChannel),
            _ => (State::Closed, Action::Abort { error: FlowError::Handshake }),
        },
        State::AwaitingChannel => match event {
            Event::Completed => (State::AwaitingHeader, Action::ReadHeader),
            _ => (State::Closed, Action::Abort { error: FlowError::Channel }),
        },
        State::AwaitingHeader => match event {
            Event::Delivered { bytes } => match read_header(bytes.as_slice()) {
                Ok(header) => (State::AwaitingBody { header }, Action::ReadBody { header }),
                Err(error) => (State::Closed, Action::Abort { error }),
            },
            _ => (State::Closed, Action::Abort { error: FlowError::IncompleteHeader }),
        },
        State::AwaitingBody { header } => match event {
            Event::Delivered { bytes } => {
                let message = read_body(header, bytes.as_slice());
                let outcome = decode(message.body());
                (State::Decoded, Action::Report { outcome })
            },
            Event::Finished => {
                let nothing: Vec<u8> = Vec::new();
                let message = read_body(header, nothing.as_slice());
                let outcome = decode(message.body());
                (State::Decoded, Action::Report { outcome })
            },
            _ => (State::Closed, Action::Abort { error: FlowError::BodyRead }),
        },
        State::Decoded => (State::Closed, Action::Stop),
        State::Closed => (State::Closed, Action::Stop),
    }
}

} // verus!
