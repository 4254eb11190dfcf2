//! The broker's answers, and the decisions that drive a connection.

use super::connection::{
    abort, finish, on_length, on_payload, read_length, transition, ConnectionAction,
    ConnectionError, ConnectionEvent, ConnectionNote, ConnectionState, Transition,
    MAX_MESSAGE_SIZE,
};
use crate::protocol::buffer::{buf_as_slice, buf_bytes, buf_put_i16, buf_put_i32};
use crate::protocol::encoding::{Parsed, ProtocolDecode, ProtocolEncode};
use crate::protocol::errors::{ErrorKind, ProtocolError};
use crate::protocol::headers::{
    lemma_request_header_roundtrip, lemma_response_header_roundtrip, parse_request_header,
    parse_response_header, request_header_wire, response_header_wire, RequestHeaderV2,
    RequestHeaderV2View, ResponseHeaderV0,
};
use crate::protocol::spec::api_keys::API_VERSIONS;
use crate::protocol::spec::error_codes::UNSUPPORTED_VERSION;
use crate::protocol::spec::MAX_STRING_LENGTH;
use crate::protocol::wire::{i16_to_be, i32_to_be, u32_be_bytes, u32_from_be_quad};
use bytes::BytesMut;
use vstd::pervasive::unreached;
use vstd::prelude::*;
use vstd::slice::slice_to_vec;
use vstd::utf8::encode_utf8;

verus! {

/// The payload that answers an API-Versions request: no error, one entry
/// (API-Versions itself, versions 0 to 1), no throttling.
pub open spec fn api_versions_payload() -> Seq<u8> {
    i16_to_be(0) + i32_to_be(1) + i16_to_be(API_VERSIONS) + i16_to_be(0) + i16_to_be(1)
        + i32_to_be(0)
}

/// The payload that answers any other request: the error code alone.
pub open spec fn unsupported_payload() -> Seq<u8> {
    i16_to_be(UNSUPPORTED_VERSION)
}

/// The payload that answers a request with the given API key.
pub open spec fn response_payload(api_key: i16) -> Seq<u8> {
    if api_key == API_VERSIONS {
        api_versions_payload()
    } else {
        unsupported_payload()
    }
}

/// The body of the response to a request: a header that echoes the
/// correlation id, then the payload for the API key.
pub open spec fn response_body(request: RequestHeaderV2View) -> Seq<u8> {
    response_header_wire(ResponseHeaderV0 { correlation_id: request.correlation_id })
        + response_payload(request.request_api_key)
}

/// The two payloads, byte by byte.
pub proof fn lemma_payload_bytes()
    ensures
        api_versions_payload() == seq![
            0u8, 0u8,
            0u8, 0u8, 0u8, 1u8,
            0u8, 18u8,
            0u8, 0u8,
            0u8, 1u8,
            0u8, 0u8, 0u8, 0u8,
        ],
        unsupported_payload() == seq![0u8, 35u8],
{
    assert(i16_to_be(0) =~= seq![0u8, 0u8]);
    assert(i16_to_be(1) =~= seq![0u8, 1u8]);
    assert(i16_to_be(API_VERSIONS) =~= seq![0u8, 18u8]);
    assert(i16_to_be(UNSUPPORTED_VERSION) =~= seq![0u8, 35u8]);
    assert(i32_to_be(0) =~= seq![0u8, 0u8, 0u8, 0u8]);
    assert(i32_to_be(1) =~= seq![0u8, 0u8, 0u8, 1u8]);
    assert(api_versions_payload() =~= seq![
        0u8, 0u8,
        0u8, 0u8, 0u8, 1u8,
        0u8, 18u8,
        0u8, 0u8,
        0u8, 1u8,
        0u8, 0u8, 0u8, 0u8,
    ]);
}

/// A response body is the four bytes of its header and the payload: 20
/// bytes in answer to API-Versions, 6 in answer to anything else.
pub proof fn lemma_response_body_len(request: RequestHeaderV2View)
    ensures
        response_body(request).len() == if request.request_api_key == API_VERSIONS {
            20nat
        } else {
            6nat
        },
{
    lemma_payload_bytes();
    assert(i32_to_be(request.correlation_id).len() == 4);
}

/// A request that was encoded from a header is answered, and the answer
/// opens with a response header that carries the request's correlation
/// id. What follows the request header in the frame plays no part.
pub proof fn lemma_response_echoes_correlation_id(request: RequestHeaderV2View, body: Seq<u8>)
    requires
        request.client_id matches Some(s) ==> encode_utf8(s).len() <= MAX_STRING_LENGTH,
    ensures
        request_header_wire(request) is Ok,
        process(request_header_wire(request)->Ok_0 + body).outcome == Ok::<Seq<u8>, ErrorKind>(
            response_body(request),
        ),
        parse_response_header(response_body(request)) == (Parsed {
            outcome: Ok(ResponseHeaderV0 { correlation_id: request.correlation_id }),
            rest: response_payload(request.request_api_key),
        }),
{
    lemma_request_header_roundtrip(request, body);
    lemma_response_header_roundtrip(
        ResponseHeaderV0 { correlation_id: request.correlation_id },
        response_payload(request.request_api_key),
    );
}

/// What processing the payload of one frame gives: the body of the
/// response, or the reason why the request header could not be read.
pub open spec fn process(payload: Seq<u8>) -> Parsed<Seq<u8>> {
    let header = parse_request_header(payload);
    Parsed {
        outcome: match header.outcome {
            Ok(request) => Ok(response_body(request)),
            Err(kind) => Err(kind),
        },
        rest: header.rest,
    }
}

/// The broker. It answers API-Versions requests and turns every other
/// request down.
#[derive(Debug)]
pub struct KafkaBroker {}

impl KafkaBroker {
    /// A new broker.
    pub fn new() -> (broker: Self)
        ensures
            broker == (KafkaBroker {  }),
    {
        Self {  }
    }

    /// The state in which every connection starts, and the first thing to
    /// do on it.
    pub fn open_connection(&self) -> (t: Transition)
        ensures
            t.deep_view() == read_length(None),
    {
        Transition {
            state: ConnectionState::AwaitingLength,
            action: ConnectionAction::ReadLength,
            note: None,
        }
    }

    /// Takes a connection one step further: given the state it is in and
    /// what the driver reports, says which state follows and what the
    /// driver is to do next.
    pub fn handle_connection(&self, state: ConnectionState, event: ConnectionEvent) -> (t:
        Transition)
        ensures
            t.deep_view() == transition(state, event),
    {
        match state {
            ConnectionState::Closed => Self::abort(ConnectionError::UnexpectedEvent),
            ConnectionState::AwaitingLength => match event {
                ConnectionEvent::LengthRead { prefix } => Self::handle_length(&prefix),
                ConnectionEvent::EndOfStream { received } => {
                    if received == 0 {
                        Self::finish()
                    } else {
                        Self::abort(ConnectionError::UnexpectedEof)
                    }
                },
                ConnectionEvent::ReadFailed => Self::abort(ConnectionError::ReadFailed),
                ConnectionEvent::TimedOut => Self::abort(ConnectionError::TimedOut),
                ConnectionEvent::ShutdownRequested => Self::finish(),
                _ => Self::abort(ConnectionError::UnexpectedEvent),
            },
            ConnectionState::AwaitingPayload { length } => match event {
                ConnectionEvent::PayloadRead { payload } => {
                    if payload.len() == length && 1 <= length && length <= MAX_MESSAGE_SIZE {
                        self.handle_payload(&payload)
                    } else {
                        Self::abort(ConnectionError::UnexpectedEvent)
                    }
                },
                ConnectionEvent::EndOfStream { .. } => Self::abort(ConnectionError::UnexpectedEof),
                ConnectionEvent::ReadFailed => Self::abort(ConnectionError::ReadFailed),
                ConnectionEvent::TimedOut => Self::abort(ConnectionError::TimedOut),
                ConnectionEvent::ShutdownRequested => Self::finish(),
                _ => Self::abort(ConnectionError::UnexpectedEvent),
            },
            ConnectionState::AwaitingWrite => match event {
                ConnectionEvent::Written => Self::next_frame(None),
                ConnectionEvent::WriteFailed => Self::abort(ConnectionError::WriteFailed),
                ConnectionEvent::TimedOut => Self::abort(ConnectionError::TimedOut),
                ConnectionEvent::ShutdownRequested => Self::finish(),
                _ => Self::abort(ConnectionError::UnexpectedEvent),
            },
        }
    }

    /// Decides what follows a length prefix.
    fn handle_length(prefix: &[u8; 4]) -> (t: Transition)
        ensures
            t.deep_view() == on_length(prefix@),
    {
        let length = u32_from_be_quad(prefix[0], prefix[1], prefix[2], prefix[3]);
        let message_length = length as usize;
        if message_length == 0 {
            Self::next_frame(Some(ConnectionNote::EmptyFrame))
        } else if message_length > MAX_MESSAGE_SIZE {
            Self::abort(ConnectionError::MessageTooLarge { length: message_length })
        } else {
            Transition {
                state: ConnectionState::AwaitingPayload { length: message_length },
                action: ConnectionAction::ReadPayload { length: message_length },
                note: None,
            }
        }
    }

    /// Processes the payload of one frame and decides what follows.
    fn handle_payload(&self, payload: &Vec<u8>) -> (t: Transition)
        requires
            payload@.len() <= MAX_MESSAGE_SIZE,
        ensures
            t.deep_view() == on_payload(payload@),
    {
        let mut message_buffer = BytesMut::with_capacity(payload.len());
        message_buffer.extend_from_slice(payload.as_slice());
        assert(buf_bytes(message_buffer) =~= payload@);
        let header = match RequestHeaderV2::decode(&mut message_buffer) {
            Ok(header) => header,
            Err(e) => {
                return Self::next_frame(Some(ConnectionNote::RequestFailed(e)));
            },
        };
        let mut response = self.respond(&header);
        proof {
            lemma_response_body_len(header.deep_view());
        }
        let response_length = response.len() as u32;
        let mut frame = u32_be_bytes(response_length);
        frame.append(&mut response);
        Transition {
            state: ConnectionState::AwaitingWrite,
            action: ConnectionAction::Write { frame },
            note: Some(
                ConnectionNote::RequestServed {
                    api_key: header.request_api_key,
                    correlation_id: header.correlation_id,
                },
            ),
        }
    }

    /// The step that goes on to the next frame.
    fn next_frame(note: Option<ConnectionNote>) -> (t: Transition)
        ensures
            t.deep_view() == read_length(note.deep_view()),
    {
        Transition {
            state: ConnectionState::AwaitingLength,
            action: ConnectionAction::ReadLength,
            note,
        }
    }

    /// The step that closes the connection without an error.
    fn finish() -> (t: Transition)
        ensures
            t.deep_view() == finish(),
    {
        Transition { state: ConnectionState::Closed, action: ConnectionAction::Finish, note: None }
    }

    /// The step that closes the connection with an error.
    fn abort(error: ConnectionError) -> (t: Transition)
        ensures
            t.deep_view() == abort(error),
    {
        Transition {
            state: ConnectionState::Closed,
            action: ConnectionAction::Abort { error },
            note: None,
        }
    }

    /// Processes one request: reads the header off the buffer and returns
    /// the body of the response, header first.
    pub fn process_request(&self, buffer: &mut BytesMut) -> (r: Result<Vec<u8>, ProtocolError>)
        ensures
            match process(buf_bytes(*old(buffer))).outcome {
                Ok(body) => r is Ok && r->Ok_0@ == body,
                Err(kind) => r is Err && r->Err_0.kind() == kind,
            },
            buf_bytes(*final(buffer)) == process(buf_bytes(*old(buffer))).rest,
    {
        let header = RequestHeaderV2::decode(buffer)?;
        Ok(self.respond(&header))
    }

    /// The body of the response to a request with the given header: a
    /// response header with the same correlation id, then the payload that
    /// the API key calls for.
    pub fn respond(&self, header: &RequestHeaderV2) -> (body: Vec<u8>)
        ensures
            body@ == response_body(header.deep_view()),
    {
        let response_header = ResponseHeaderV0 { correlation_id: header.correlation_id };
        let response_data = match header.request_api_key {
            API_VERSIONS => self.handle_api_versions_request(header),
            _ => self.handle_unsupported_request(header),
        };
        let encoded_header = match response_header.encode() {
            Ok(encoded) => encoded,
            // A response header always has an encoding.
            Err(_) => unreached(),
        };
        let mut response = BytesMut::new();
        response.extend_from_slice(buf_as_slice(&encoded_header));
        response.extend_from_slice(response_data.as_slice());
        assert(buf_bytes(response) =~= response_body(header.deep_view()));
        slice_to_vec(buf_as_slice(&response))
    }

    /// The payload that answers an API-Versions request.
    pub fn handle_api_versions_request(&self, _header: &RequestHeaderV2) -> (payload: Vec<u8>)
        ensures
            payload@ == api_versions_payload(),
    {
        let mut response = BytesMut::new();
        // Error code: none.
        buf_put_i16(&mut response, 0);
        // One entry follows.
        buf_put_i32(&mut response, 1);
        // The entry: API-Versions, versions 0 to 1.
        buf_put_i16(&mut response, API_VERSIONS);
        buf_put_i16(&mut response, 0);
        buf_put_i16(&mut response, 1);
        // Throttle time: none.
        buf_put_i32(&mut response, 0);
        assert(buf_bytes(response) =~= api_versions_payload());
        slice_to_vec(buf_as_slice(&response))
    }

    /// The payload that answers a request which the broker does not
    /// support.
    pub fn handle_unsupported_request(&self, _header: &RequestHeaderV2) -> (payload: Vec<u8>)
        ensures
            payload@ == unsupported_payload(),
    {
        let mut response = BytesMut::new();
        buf_put_i16(&mut response, UNSUPPORTED_VERSION);
        assert(buf_bytes(response) =~= unsupported_payload());
        slice_to_vec(buf_as_slice(&response))
    }
}

impl Default for KafkaBroker {
    fn default() -> (broker: Self)
        ensures
            broker == (KafkaBroker {  }),
    {
        Self::new()
    }
}

} // verus!
