//! Request and response headers.

use super::buffer::{buf_bytes, buf_put_i16, buf_put_i32, buf_put_u8, buf_remaining};
use super::encoding::{
    lemma_nullable_string_roundtrip, nullable_string_wire, parse_i32, parse_nullable_string,
    too_short, Parsed, ProtocolDecode, ProtocolEncode, WireFormat,
};
use super::errors::{ErrorKind, ProtocolError, ProtocolResult};
use super::spec::MAX_STRING_LENGTH;
use super::wire::{
    i16_from_be, i16_to_be, i32_from_be, i32_to_be, lemma_i16_roundtrip, lemma_i32_roundtrip,
};
use bytes::BytesMut;
use vstd::prelude::*;
use vstd::utf8::encode_utf8;

verus! {

/// Response header, version 0: the correlation id of the request that is
/// being answered, and nothing else.
#[derive(Debug, Clone, PartialEq)]
pub struct ResponseHeaderV0 {
    pub correlation_id: i32,
}

impl View for ResponseHeaderV0 {
    type V = ResponseHeaderV0;

    open spec fn view(&self) -> ResponseHeaderV0 {
        *self
    }
}

impl DeepView for ResponseHeaderV0 {
    type V = ResponseHeaderV0;

    open spec fn deep_view(&self) -> ResponseHeaderV0 {
        *self
    }
}

impl ResponseHeaderV0 {
    /// A response header for the given correlation id.
    pub fn new(correlation_id: i32) -> (h: Self)
        ensures
            h.correlation_id == correlation_id,
    {
        Self { correlation_id }
    }
}

/// The four bytes of a response header.
pub open spec fn response_header_wire(h: ResponseHeaderV0) -> Seq<u8> {
    i32_to_be(h.correlation_id)
}

/// Reading a response header: one big-endian 32-bit integer.
pub open spec fn parse_response_header(bytes: Seq<u8>) -> Parsed<ResponseHeaderV0> {
    let id = parse_i32(bytes);
    Parsed {
        outcome: match id.outcome {
            Ok(correlation_id) => Ok(ResponseHeaderV0 { correlation_id }),
            Err(kind) => Err(kind),
        },
        rest: id.rest,
    }
}

impl ProtocolEncode for ResponseHeaderV0 {
    open spec fn wire(v: ResponseHeaderV0) -> Result<Seq<u8>, ErrorKind> {
        Ok(response_header_wire(v))
    }

    /// Writes the correlation id as four big-endian bytes.
    fn encode(&self) -> (r: ProtocolResult<BytesMut>) {
        let mut buffer = BytesMut::with_capacity(4);
        buf_put_i32(&mut buffer, self.correlation_id);
        assert(buf_bytes(buffer) =~= i32_to_be(self.correlation_id));
        Ok(buffer)
    }
}

impl ProtocolDecode for ResponseHeaderV0 {
    open spec fn parse(bytes: Seq<u8>) -> Parsed<ResponseHeaderV0> {
        parse_response_header(bytes)
    }

    /// Reads the correlation id off the front of the buffer.
    fn decode(buffer: &mut BytesMut) -> (r: ProtocolResult<Self>) {
        let correlation_id = WireFormat::decode_i32(buffer)?;
        Ok(Self { correlation_id })
    }
}

/// Request header, version 2.
#[derive(Debug, Clone, PartialEq)]
pub struct RequestHeaderV2 {
    pub request_api_key: i16,
    pub request_api_version: i16,
    pub correlation_id: i32,
    /// The client's name, a nullable string on the wire.
    pub client_id: Option<String>,
}

/// A request header with its client id as a sequence of characters.
pub struct RequestHeaderV2View {
    pub request_api_key: i16,
    pub request_api_version: i16,
    pub correlation_id: i32,
    pub client_id: Option<Seq<char>>,
}

impl DeepView for RequestHeaderV2 {
    type V = RequestHeaderV2View;

    open spec fn deep_view(&self) -> RequestHeaderV2View {
        RequestHeaderV2View {
            request_api_key: self.request_api_key,
            request_api_version: self.request_api_version,
            correlation_id: self.correlation_id,
            client_id: self.client_id.deep_view(),
        }
    }
}

impl View for RequestHeaderV2 {
    type V = RequestHeaderV2View;

    open spec fn view(&self) -> RequestHeaderV2View {
        self.deep_view()
    }
}

impl RequestHeaderV2 {
    /// A request header with the given fields.
    pub fn new(
        request_api_key: i16,
        request_api_version: i16,
        correlation_id: i32,
        client_id: Option<String>,
    ) -> (h: Self)
        ensures
            h == (RequestHeaderV2 {
                request_api_key,
                request_api_version,
                correlation_id,
                client_id,
            }),
    {
        Self { request_api_key, request_api_version, correlation_id, client_id }
    }

    /// A request header whose client id is what `client_id` converts into.
    pub fn with_client_id<T: Into<String>>(
        request_api_key: i16,
        request_api_version: i16,
        correlation_id: i32,
        client_id: T,
    ) -> (h: Self)
        ensures
            h.request_api_key == request_api_key,
            h.request_api_version == request_api_version,
            h.correlation_id == correlation_id,
            h.client_id matches Some(s) && call_ensures(T::into, (client_id,), s),
    {
        Self::new(request_api_key, request_api_version, correlation_id, Some(client_id.into()))
    }

    /// A request header without a client id.
    pub fn without_client_id(
        request_api_key: i16,
        request_api_version: i16,
        correlation_id: i32,
    ) -> (h: Self)
        ensures
            h == (RequestHeaderV2 {
                request_api_key,
                request_api_version,
                correlation_id,
                client_id: None,
            }),
    {
        Self::new(request_api_key, request_api_version, correlation_id, None)
    }
}

/// The eight bytes of the three fixed fields of a request header.
pub open spec fn fixed_fields_wire(h: RequestHeaderV2View) -> Seq<u8> {
    i16_to_be(h.request_api_key) + i16_to_be(h.request_api_version) + i32_to_be(h.correlation_id)
}

/// The bytes of a request header: key, version and correlation id, the
/// client id as a nullable string, and an empty tag section.
pub open spec fn request_header_wire(h: RequestHeaderV2View) -> Result<Seq<u8>, ErrorKind> {
    match nullable_string_wire(h.client_id) {
        Ok(client) => Ok(fixed_fields_wire(h) + client + seq![0u8]),
        Err(kind) => Err(kind),
    }
}

/// Reading a request header. The three fixed fields need eight bytes up
/// front; the client id follows; one byte of tag count is skipped if there
/// is one.
pub open spec fn parse_request_header(bytes: Seq<u8>) -> Parsed<RequestHeaderV2View> {
    if bytes.len() < 8 {
        too_short(bytes, 8)
    } else {
        let client = parse_nullable_string(bytes.skip(8));
        match client.outcome {
            Err(kind) => Parsed { outcome: Err(kind), rest: client.rest },
            Ok(client_id) => Parsed {
                outcome: Ok(
                    RequestHeaderV2View {
                        request_api_key: i16_from_be(bytes),
                        request_api_version: i16_from_be(bytes.skip(2)),
                        correlation_id: i32_from_be(bytes.skip(4)),
                        client_id,
                    },
                ),
                rest: if client.rest.len() >= 1 {
                    client.rest.skip(1)
                } else {
                    client.rest
                },
            },
        }
    }
}

impl ProtocolEncode for RequestHeaderV2 {
    open spec fn wire(v: RequestHeaderV2View) -> Result<Seq<u8>, ErrorKind> {
        request_header_wire(v)
    }

    /// Writes the header. Fails, with nothing to show, when the client id
    /// is longer than 32767 bytes.
    fn encode(&self) -> (r: ProtocolResult<BytesMut>) {
        let mut buffer = BytesMut::new();
        buf_put_i16(&mut buffer, self.request_api_key);
        buf_put_i16(&mut buffer, self.request_api_version);
        buf_put_i32(&mut buffer, self.correlation_id);
        let client_id = match &self.client_id {
            Some(s) => Some(s.as_str()),
            None => None,
        };
        WireFormat::encode_nullable_string(&mut buffer, client_id)?;
        buf_put_u8(&mut buffer, 0);
        assert(buf_bytes(buffer) =~= request_header_wire(self.deep_view())->Ok_0);
        Ok(buffer)
    }
}

impl ProtocolDecode for RequestHeaderV2 {
    open spec fn parse(bytes: Seq<u8>) -> Parsed<RequestHeaderV2View> {
        parse_request_header(bytes)
    }

    /// Reads the header off the front of the buffer.
    fn decode(buffer: &mut BytesMut) -> (r: ProtocolResult<Self>) {
        let remaining = buf_remaining(buffer);
        if remaining < 8 {
            return Err(ProtocolError::insufficient_bytes(8, remaining));
        }
        let request_api_key = WireFormat::decode_i16(buffer)?;
        let request_api_version = WireFormat::decode_i16(buffer)?;
        let correlation_id = WireFormat::decode_i32(buffer)?;
        assert(buf_bytes(*buffer) =~= buf_bytes(*old(buffer)).skip(8));
        let client_id = WireFormat::decode_nullable_string(buffer)?;
        if buf_remaining(buffer) >= 1 {
            let _tagged_fields = WireFormat::decode_u8(buffer)?;
        }
        Ok(Self { request_api_key, request_api_version, correlation_id, client_id })
    }
}

/// The fixed fields are read back from their eight bytes, whatever follows
/// them.
proof fn lemma_fixed_fields_roundtrip(h: RequestHeaderV2View, tail: Seq<u8>)
    ensures
        fixed_fields_wire(h).len() == 8,
        i16_from_be(fixed_fields_wire(h) + tail) == h.request_api_key,
        i16_from_be((fixed_fields_wire(h) + tail).skip(2)) == h.request_api_version,
        i32_from_be((fixed_fields_wire(h) + tail).skip(4)) == h.correlation_id,
        (fixed_fields_wire(h) + tail).skip(8) == tail,
{
    let key = i16_to_be(h.request_api_key);
    let version = i16_to_be(h.request_api_version);
    let id = i32_to_be(h.correlation_id);
    let bytes = fixed_fields_wire(h) + tail;
    lemma_i16_roundtrip(h.request_api_key, version + id + tail);
    lemma_i16_roundtrip(h.request_api_version, id + tail);
    lemma_i32_roundtrip(h.correlation_id, tail);
    assert(bytes =~= key + (version + id + tail));
    assert(bytes.skip(2) =~= version + (id + tail));
    assert(bytes.skip(4) =~= id + tail);
    assert(bytes.skip(8) =~= tail);
}

/// Reading back an encoded request header gives the header, and leaves
/// whatever followed it. This holds of every header whose client id is
/// absent or at most 32767 bytes long: the headers that can be encoded.
pub proof fn lemma_request_header_roundtrip(h: RequestHeaderV2View, tail: Seq<u8>)
    requires
        h.client_id matches Some(s) ==> encode_utf8(s).len() <= MAX_STRING_LENGTH,
    ensures
        request_header_wire(h) is Ok,
        parse_request_header(request_header_wire(h)->Ok_0 + tail) == (Parsed {
            outcome: Ok(h),
            rest: tail,
        }),
{
    let client = nullable_string_wire(h.client_id)->Ok_0;
    let after = seq![0u8] + tail;
    let bytes = request_header_wire(h)->Ok_0 + tail;
    lemma_nullable_string_roundtrip(h.client_id, after);
    lemma_fixed_fields_roundtrip(h, client + after);
    assert(bytes =~= fixed_fields_wire(h) + (client + after));
    assert(after.skip(1) =~= tail);
}

/// Reading back an encoded response header gives the header, and leaves
/// whatever followed it.
pub proof fn lemma_response_header_roundtrip(h: ResponseHeaderV0, tail: Seq<u8>)
    ensures
        parse_response_header(response_header_wire(h) + tail) == (Parsed {
            outcome: Ok(h),
            rest: tail,
        }),
{
    lemma_i32_roundtrip(h.correlation_id, tail);
    assert((response_header_wire(h) + tail).skip(4) =~= tail);
}

} // verus!
