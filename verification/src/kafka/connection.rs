//! States, events and actions of one client connection.
//!
//! A connection is driven from outside: the driver performs the action it
//! is handed (a read, a write, closing), reports what happened as an event,
//! and is told the next action. The broker decides; the driver only moves
//! bytes.

use super::broker::response_body;
use crate::protocol::errors::{ErrorKind, ProtocolError};
use crate::protocol::headers::parse_request_header;
use crate::protocol::wire::{lemma_u32_roundtrip, u32_from_be, u32_to_be};
use vstd::prelude::*;

verus! {

/// The largest frame payload, in bytes, that a client may send.
pub const MAX_MESSAGE_SIZE: usize = 1_048_576;

/// Why a connection was closed on the broker's side.
#[derive(Debug, Clone, Copy, PartialEq, Eq, Structural)]
pub enum ConnectionError {
    /// A length prefix announced more than [`MAX_MESSAGE_SIZE`] bytes.
    MessageTooLarge { length: usize },
    /// The stream ended in the middle of a frame.
    UnexpectedEof,
    /// A read failed for another reason.
    ReadFailed,
    /// A write failed.
    WriteFailed,
    /// The connection was open for longer than it may be.
    TimedOut,
    /// The driver reported something that it was not asked to do.
    UnexpectedEvent,
}

/// What a connection is waiting for.
#[derive(Debug, Clone, Copy, PartialEq, Eq, Structural)]
pub enum ConnectionState {
    /// The four bytes of the next length prefix.
    AwaitingLength,
    /// The payload of a frame whose prefix announced `length` bytes.
    AwaitingPayload { length: usize },
    /// The end of the write of a response.
    AwaitingWrite,
    /// Nothing: the connection is over.
    Closed,
}

impl ConnectionState {
    /// A state is well formed if the payload it waits for has a length that
    /// the broker accepts.
    pub open spec fn wf(self) -> bool {
        self matches ConnectionState::AwaitingPayload { length } ==> 1 <= length
            <= MAX_MESSAGE_SIZE
    }
}

/// What the driver reports.
#[derive(Debug)]
pub enum ConnectionEvent {
    /// The four bytes of a length prefix have been read.
    LengthRead { prefix: [u8; 4] },
    /// The payload that was asked for has been read in full.
    PayloadRead { payload: Vec<u8> },
    /// The stream ended after `received` bytes of the read that was asked
    /// for.
    EndOfStream { received: usize },
    /// The read failed for another reason.
    ReadFailed,
    /// The response has been written in full.
    Written,
    /// The write failed.
    WriteFailed,
    /// The connection has been open for longer than it may be.
    TimedOut,
    /// The server is shutting down.
    ShutdownRequested,
}

/// What the driver is to do next.
#[derive(Debug)]
pub enum ConnectionAction {
    /// Read exactly four bytes: the next length prefix.
    ReadLength,
    /// Read exactly `length` bytes: the payload of the frame.
    ReadPayload { length: usize },
    /// Write all of `frame`: a response with its length prefix.
    Write { frame: Vec<u8> },
    /// Close the connection; all went well.
    Finish,
    /// Close the connection and report `error`.
    Abort { error: ConnectionError },
}

/// Something worth a line in the log that does not end the connection.
#[derive(Debug)]
pub enum ConnectionNote {
    /// A frame of length zero arrived and was skipped.
    EmptyFrame,
    /// A request was read and its response is on the way out.
    RequestServed { api_key: i16, correlation_id: i32 },
    /// A request could not be processed and was dropped.
    RequestFailed(ProtocolError),
}

/// One step of a connection: the state it is in now, what the driver is to
/// do, and what there is to log.
#[derive(Debug)]
pub struct Transition {
    pub state: ConnectionState,
    pub action: ConnectionAction,
    pub note: Option<ConnectionNote>,
}

/// An action with the bytes to write as a sequence.
pub enum ActionView {
    ReadLength,
    ReadPayload { length: usize },
    Write { frame: Seq<u8> },
    Finish,
    Abort { error: ConnectionError },
}

/// A note with the error by its kind.
pub enum NoteView {
    EmptyFrame,
    RequestServed { api_key: i16, correlation_id: i32 },
    RequestFailed(ErrorKind),
}

/// A step with its action and note by their views.
pub struct TransitionView {
    pub state: ConnectionState,
    pub action: ActionView,
    pub note: Option<NoteView>,
}

impl DeepView for ConnectionAction {
    type V = ActionView;

    open spec fn deep_view(&self) -> ActionView {
        match *self {
            ConnectionAction::ReadLength => ActionView::ReadLength,
            ConnectionAction::ReadPayload { length } => ActionView::ReadPayload { length },
            ConnectionAction::Write { frame } => ActionView::Write { frame: frame@ },
            ConnectionAction::Finish => ActionView::Finish,
            ConnectionAction::Abort { error } => ActionView::Abort { error },
        }
    }
}

impl DeepView for ConnectionNote {
    type V = NoteView;

    open spec fn deep_view(&self) -> NoteView {
        match *self {
            ConnectionNote::EmptyFrame => NoteView::EmptyFrame,
            ConnectionNote::RequestServed { api_key, correlation_id } => NoteView::RequestServed {
                api_key,
                correlation_id,
            },
            ConnectionNote::RequestFailed(e) => NoteView::RequestFailed(e.kind()),
        }
    }
}

impl DeepView for Transition {
    type V = TransitionView;

    open spec fn deep_view(&self) -> TransitionView {
        TransitionView {
            state: self.state,
            action: self.action.deep_view(),
            note: self.note.deep_view(),
        }
    }
}

/// A body with its four-byte big-endian length in front.
pub open spec fn frame(body: Seq<u8>) -> Seq<u8> {
    u32_to_be(body.len() as u32) + body
}

/// The step that closes the connection without an error.
pub open spec fn finish() -> TransitionView {
    TransitionView { state: ConnectionState::Closed, action: ActionView::Finish, note: None }
}

/// The step that closes the connection with an error.
pub open spec fn abort(error: ConnectionError) -> TransitionView {
    TransitionView {
        state: ConnectionState::Closed,
        action: ActionView::Abort { error },
        note: None,
    }
}

/// The step that goes on to the next frame.
pub open spec fn read_length(note: Option<NoteView>) -> TransitionView {
    TransitionView {
        state: ConnectionState::AwaitingLength,
        action: ActionView::ReadLength,
        note,
    }
}

/// The step after a length prefix: an empty frame is skipped, one over the
/// limit ends the connection, any other has its payload read.
pub open spec fn on_length(prefix: Seq<u8>) -> TransitionView {
    let length = u32_from_be(prefix);
    if length == 0 {
        read_length(Some(NoteView::EmptyFrame))
    } else if length > MAX_MESSAGE_SIZE {
        abort(ConnectionError::MessageTooLarge { length: length as usize })
    } else {
        TransitionView {
            state: ConnectionState::AwaitingPayload { length: length as usize },
            action: ActionView::ReadPayload { length: length as usize },
            note: None,
        }
    }
}

/// The step after a payload: the response is written, or the request is
/// dropped and the next frame read.
pub open spec fn on_payload(payload: Seq<u8>) -> TransitionView {
    match parse_request_header(payload).outcome {
        Ok(request) => TransitionView {
            state: ConnectionState::AwaitingWrite,
            action: ActionView::Write { frame: frame(response_body(request)) },
            note: Some(
                NoteView::RequestServed {
                    api_key: request.request_api_key,
                    correlation_id: request.correlation_id,
                },
            ),
        },
        Err(kind) => read_length(Some(NoteView::RequestFailed(kind))),
    }
}

/// The step that a connection in `state` takes on `event`.
pub open spec fn transition(state: ConnectionState, event: ConnectionEvent) -> TransitionView {
    match state {
        ConnectionState::Closed => abort(ConnectionError::UnexpectedEvent),
        ConnectionState::AwaitingLength => match event {
            ConnectionEvent::LengthRead { prefix } => on_length(prefix@),
            ConnectionEvent::EndOfStream { received } => if received == 0 {
                finish()
            } else {
                abort(ConnectionError::UnexpectedEof)
            },
            ConnectionEvent::ReadFailed => abort(ConnectionError::ReadFailed),
            ConnectionEvent::TimedOut => abort(ConnectionError::TimedOut),
            ConnectionEvent::ShutdownRequested => finish(),
            _ => abort(ConnectionError::UnexpectedEvent),
        },
        ConnectionState::AwaitingPayload { length } => match event {
            ConnectionEvent::PayloadRead { payload } => if payload@.len() == length && 1 <= length
                <= MAX_MESSAGE_SIZE {
                on_payload(payload@)
            } else {
                abort(ConnectionError::UnexpectedEvent)
            },
            ConnectionEvent::EndOfStream { .. } => abort(ConnectionError::UnexpectedEof),
            ConnectionEvent::ReadFailed => abort(ConnectionError::ReadFailed),
            ConnectionEvent::TimedOut => abort(ConnectionError::TimedOut),
            ConnectionEvent::ShutdownRequested => finish(),
            _ => abort(ConnectionError::UnexpectedEvent),
        },
        ConnectionState::AwaitingWrite => match event {
            ConnectionEvent::Written => read_length(None),
            ConnectionEvent::WriteFailed => abort(ConnectionError::WriteFailed),
            ConnectionEvent::TimedOut => abort(ConnectionError::TimedOut),
            ConnectionEvent::ShutdownRequested => finish(),
            _ => abort(ConnectionError::UnexpectedEvent),
        },
    }
}

/// Whatever state a connection is in and whatever is reported, the state
/// that follows is well formed, and the action is the one that the state
/// waits for: a read of the length in `AwaitingLength`, a read of exactly
/// the announced payload in `AwaitingPayload`, a write in `AwaitingWrite`,
/// and the end in `Closed`.
pub proof fn lemma_action_fits_state(state: ConnectionState, event: ConnectionEvent)
    ensures
        transition(state, event).state.wf(),
        match transition(state, event).state {
            ConnectionState::AwaitingLength => transition(state, event).action
                == ActionView::ReadLength,
            ConnectionState::AwaitingPayload { length } => transition(state, event).action
                == (ActionView::ReadPayload { length }),
            ConnectionState::AwaitingWrite => transition(state, event).action is Write,
            ConnectionState::Closed => transition(state, event).action is Finish || transition(
                state,
                event,
            ).action is Abort,
        },
{
}

/// A response is written only in answer to a payload that was read in
/// full, and it is the frame of the response to that payload's request.
pub proof fn lemma_write_answers_request(state: ConnectionState, event: ConnectionEvent)
    requires
        transition(state, event).action is Write,
    ensures
        state is AwaitingPayload,
        event is PayloadRead,
        event->payload@.len() == state->length,
        parse_request_header(event->payload@).outcome is Ok,
        transition(state, event).action->frame == frame(
            response_body(parse_request_header(event->payload@).outcome->Ok_0),
        ),
{
}

/// While a response is being written, nothing but the end of that write
/// lets the connection go on, and what follows is the read of the next
/// length: no frame is read before the response to the last one is out.
pub proof fn lemma_read_follows_write(state: ConnectionState, event: ConnectionEvent)
    requires
        state is AwaitingWrite,
        transition(state, event).state !is Closed,
    ensures
        event is Written,
        transition(state, event) == read_length(None),
{
}

/// A connection that is closed stays closed.
pub proof fn lemma_closed_stays_closed(state: ConnectionState, event: ConnectionEvent)
    requires
        state is Closed,
    ensures
        transition(state, event).state is Closed,
{
}

/// A frame is its body behind four bytes that spell the body's length.
pub proof fn lemma_frame_shape(body: Seq<u8>)
    requires
        body.len() <= u32::MAX,
    ensures
        frame(body).len() == 4 + body.len(),
        u32_from_be(frame(body)) == body.len(),
        frame(body).skip(4) == body,
{
    lemma_u32_roundtrip(body.len() as u32, body);
    assert(frame(body).skip(4) =~= body);
}

} // verus!
