//! The messages exchanged with the target's root of trust.
//!
//! A request carries an id that the caller assigns, the version of the
//! protocol and the code of an operation; a response carries the id and
//! the version again, the code of a result, and a payload. On the wire all
//! numbers are little-endian:
//!
//! ```text
//! request    id: 4 bytes | version: 4 bytes | operation: 1 byte
//! response   id: 4 bytes | version: 4 bytes | result: 1 byte | length: 2 bytes | payload
//! ```
//!
//! Each kind of message has a greatest size. A message is encoded whole or
//! not at all, and bytes are decoded only where they are exactly one
//! message of the kind and version that is expected.

use vstd::prelude::*;
use crate::attach::Attach;
use crate::attach::Validate;
use crate::cmd::Archive;
use crate::cmd::Command;
use crate::cmd::Handler;
use crate::error::Error;
use crate::hiffy::FunctionId;
use crate::hiffy::Operation;
use crate::hiffy::Program;

verus! {

/// The version of the protocol that is spoken.
pub const VERSION: u32 = 1;

/// The greatest size of an encoded request, in bytes.
pub const REQUEST_MAX_SIZE: usize = 9;

/// The size of an encoded response without its payload, in bytes.
pub const RESPONSE_HEADER_SIZE: usize = 11;

/// The greatest size of the payload of a response, in bytes.
pub const RESPONSE_MAX_PAYLOAD: usize = 512;

/// The greatest size of an encoded response, in bytes.
pub const RESPONSE_MAX_SIZE: usize = 523;

/// What the root of trust is asked to do.
#[derive(Clone, Copy, Debug, PartialEq, Eq, Structural)]
pub enum RotOpV1 {
    /// To return the public keys that it has endorsed.
    GetEndorsements,
}

/// What the root of trust answers.
#[derive(Clone, Copy, Debug, PartialEq, Eq, Structural)]
pub enum RotResultV1 {
    /// The operation was done; the payload is empty or holds what it gave.
    Done,
    /// The operation failed; the payload says why.
    Failed,
    /// The payload holds the endorsed public keys.
    Endorsements,
}

/// A request to the root of trust.
#[derive(Clone, Copy, Debug, PartialEq, Eq, Structural)]
pub struct RotRequest {
    /// Assigned by the caller, to tell answers apart.
    pub id: u32,
    /// The version of the protocol.
    pub version: u32,
    /// The operation asked for.
    pub op: RotOpV1,
}

/// An answer of the root of trust.
#[derive(Clone, Debug, PartialEq, Eq)]
pub struct RotResponse {
    /// The id of the request that is answered.
    pub id: u32,
    /// The version of the protocol.
    pub version: u32,
    /// The result.
    pub result: RotResultV1,
    /// What the result carries.
    pub payload: Vec<u8>,
}

/// A [`RotResponse`] with its payload as a sequence.
pub struct ResponseModel {
    pub id: u32,
    pub version: u32,
    pub result: RotResultV1,
    pub payload: Seq<u8>,
}

impl View for RotResponse {
    type V = ResponseModel;

    open spec fn view(&self) -> ResponseModel {
        ResponseModel {
            id: self.id,
            version: self.version,
            result: self.result,
            payload: self.payload@,
        }
    }
}

/// The four bytes of `value`, lowest first.
pub open spec fn le32(value: u32) -> Seq<u8> {
    seq![
        (value % 256) as u8,
        ((value / 256) % 256) as u8,
        ((value / 65536) % 256) as u8,
        ((value / 16777216) % 256) as u8,
    ]
}

/// The number whose four bytes, lowest first, stand in `bytes` from `at` on.
pub open spec fn from_le32(bytes: Seq<u8>, at: int) -> int {
    bytes[at] + 256 * bytes[at + 1] + 65536 * bytes[at + 2] + 16777216 * bytes[at + 3]
}

/// The two bytes of `value`, lowest first.
pub open spec fn le16(value: u16) -> Seq<u8> {
    seq![(value % 256) as u8, ((value / 256) % 256) as u8]
}

/// The number whose two bytes, lowest first, stand in `bytes` from `at` on.
pub open spec fn from_le16(bytes: Seq<u8>, at: int) -> int {
    bytes[at] + 256 * bytes[at + 1]
}

impl RotOpV1 {
    /// The code of this operation on the wire.
    pub open spec fn code_spec(self) -> u8 {
        match self {
            RotOpV1::GetEndorsements => 0,
        }
    }

    /// The operation with the code `code`, if there is one.
    pub open spec fn from_code_spec(code: u8) -> Option<RotOpV1> {
        if code == 0 {
            Some(RotOpV1::GetEndorsements)
        } else {
            None
        }
    }

    /// The code of this operation on the wire.
    pub fn code(self) -> (code: u8)
        ensures
            code == self.code_spec(),
    {
        match self {
            RotOpV1::GetEndorsements => 0,
        }
    }

    /// The operation with the code `code`, if there is one.
    pub fn from_code(code: u8) -> (op: Option<RotOpV1>)
        ensures
            op == Self::from_code_spec(code),
    {
        if code == 0 {
            Some(RotOpV1::GetEndorsements)
        } else {
            None
        }
    }
}

impl RotResultV1 {
    /// The code of this result on the wire.
    pub open spec fn code_spec(self) -> u8 {
        match self {
            RotResultV1::Done => 0,
            RotResultV1::Failed => 1,
            RotResultV1::Endorsements => 2,
        }
    }

    /// The result with the code `code`, if there is one.
    pub open spec fn from_code_spec(code: u8) -> Option<RotResultV1> {
        if code == 0 {
            Some(RotResultV1::Done)
        } else if code == 1 {
            Some(RotResultV1::Failed)
        } else if code == 2 {
            Some(RotResultV1::Endorsements)
        } else {
            None
        }
    }

    /// The code of this result on the wire.
    pub fn code(self) -> (code: u8)
        ensures
            code == self.code_spec(),
    {
        match self {
            RotResultV1::Done => 0,
            RotResultV1::Failed => 1,
            RotResultV1::Endorsements => 2,
        }
    }

    /// The result with the code `code`, if there is one.
    pub fn from_code(code: u8) -> (result: Option<RotResultV1>)
        ensures
            result == Self::from_code_spec(code),
    {
        if code == 0 {
            Some(RotResultV1::Done)
        } else if code == 1 {
            Some(RotResultV1::Failed)
        } else if code == 2 {
            Some(RotResultV1::Endorsements)
        } else {
            None
        }
    }
}

/// Reading four bytes gives back the number that was written.
pub proof fn lemma_le32_round_trip(value: u32)
    ensures
        le32(value).len() == 4,
        from_le32(le32(value), 0) == value,
{
}

/// The digits of a number written to the base 256 are its remainders.
proof fn lemma_base_256(b0: int, b1: int, b2: int, b3: int)
    requires
        0 <= b0 < 256,
        0 <= b1 < 256,
        0 <= b2 < 256,
        0 <= b3 < 256,
    ensures
        0 <= b0 + 256 * b1 + 65536 * b2 + 16777216 * b3 <= u32::MAX,
        (b0 + 256 * b1 + 65536 * b2 + 16777216 * b3) % 256 == b0,
        ((b0 + 256 * b1 + 65536 * b2 + 16777216 * b3) / 256) % 256 == b1,
        ((b0 + 256 * b1 + 65536 * b2 + 16777216 * b3) / 65536) % 256 == b2,
        ((b0 + 256 * b1 + 65536 * b2 + 16777216 * b3) / 16777216) % 256 == b3,
{
    let q1 = b1 + 256 * b2 + 65536 * b3;
    let q2 = b2 + 256 * b3;
    let v = b0 + 256 * b1 + 65536 * b2 + 16777216 * b3;
    assert(v == b0 + 256 * q1);
    assert(v / 256 == q1);
    assert(q1 == b1 + 256 * q2);
    assert(q1 / 256 == q2);
    assert(v / 65536 == q2) by {
        assert(v == (b0 + 256 * b1) + 65536 * q2);
    }
    assert(v / 16777216 == b3) by {
        assert(v == (b0 + 256 * b1 + 65536 * b2) + 16777216 * b3);
    }
}

/// Writing the number that four bytes hold gives back the four bytes.
pub proof fn lemma_le32_unique(bytes: Seq<u8>, at: int)
    requires
        0 <= at,
        at + 4 <= bytes.len(),
    ensures
        0 <= from_le32(bytes, at) <= u32::MAX,
        le32(from_le32(bytes, at) as u32) == bytes.subrange(at, at + 4),
{
    lemma_base_256(
        bytes[at] as int,
        bytes[at + 1] as int,
        bytes[at + 2] as int,
        bytes[at + 3] as int,
    );
    let value = from_le32(bytes, at) as u32;
    let written = le32(value);
    let read = bytes.subrange(at, at + 4);
    assert(written[0] == read[0]);
    assert(written[1] == read[1]);
    assert(written[2] == read[2]);
    assert(written[3] == read[3]);
    assert(written =~= read);
}

/// Appends the four bytes of `value`, lowest first.
fn put_le32(out: &mut Vec<u8>, value: u32)
    ensures
        final(out)@ == old(out)@ + le32(value),
{
    out.push((value % 256) as u8);
    out.push(((value / 256) % 256) as u8);
    out.push(((value / 65536) % 256) as u8);
    out.push(((value / 16777216) % 256) as u8);
    assert(out@ =~= old(out)@ + le32(value));
}

/// Reads the number whose four bytes, lowest first, stand from `at` on.
fn get_le32(bytes: &[u8], at: usize) -> (value: u32)
    requires
        at + 4 <= bytes.len(),
    ensures
        value == from_le32(bytes@, at as int),
{
    let b0 = bytes[at] as u32;
    let b1 = bytes[at + 1] as u32;
    let b2 = bytes[at + 2] as u32;
    let b3 = bytes[at + 3] as u32;
    b0 + 256 * b1 + 65536 * b2 + 16777216 * b3
}

/// The bytes of a request on the wire.
pub open spec fn request_bytes(request: RotRequest) -> Seq<u8> {
    le32(request.id) + le32(request.version) + seq![request.op.code_spec()]
}

/// The request that `bytes` are, where they are exactly one request of the
/// version that is spoken.
pub open spec fn parse_request(bytes: Seq<u8>) -> Option<RotRequest> {
    if bytes.len() != REQUEST_MAX_SIZE || from_le32(bytes, 4) != VERSION {
        None
    } else {
        match RotOpV1::from_code_spec(bytes[8]) {
            Some(op) => Some(RotRequest { id: from_le32(bytes, 0) as u32, version: VERSION, op }),
            None => None,
        }
    }
}

/// The bytes of a response on the wire, where its payload is small enough
/// for its length to be written.
pub open spec fn response_bytes(response: ResponseModel) -> Seq<u8> {
    le32(response.id) + le32(response.version) + seq![response.result.code_spec()] + le16(
        response.payload.len() as u16,
    ) + response.payload
}

/// The response that `bytes` are, where they are exactly one response of the
/// version that is spoken, no larger than a response may be.
pub open spec fn parse_response(bytes: Seq<u8>) -> Option<ResponseModel> {
    if bytes.len() < RESPONSE_HEADER_SIZE || bytes.len() > RESPONSE_MAX_SIZE || from_le32(bytes, 4)
        != VERSION || from_le16(bytes, 9) != bytes.len() - RESPONSE_HEADER_SIZE {
        None
    } else {
        match RotResultV1::from_code_spec(bytes[8]) {
            Some(result) => Some(
                ResponseModel {
                    id: from_le32(bytes, 0) as u32,
                    version: VERSION,
                    result,
                    payload: bytes.subrange(RESPONSE_HEADER_SIZE as int, bytes.len() as int),
                },
            ),
            None => None,
        }
    }
}

impl RotRequest {
    /// A request of the version that is spoken.
    pub fn new(id: u32, op: RotOpV1) -> (request: RotRequest)
        ensures
            request == (RotRequest { id, version: VERSION, op }),
    {
        RotRequest { id, version: VERSION, op }
    }

    /// The bytes of this request: always [`REQUEST_MAX_SIZE`] of them.
    pub fn to_bytes(&self) -> (out: Vec<u8>)
        ensures
            out@ == request_bytes(*self),
            out.len() == REQUEST_MAX_SIZE,
    {
        let mut out: Vec<u8> = Vec::new();
        put_le32(&mut out, self.id);
        put_le32(&mut out, self.version);
        out.push(self.op.code());
        assert(out@ =~= request_bytes(*self));
        out
    }

    /// The bytes of this request. A request is never larger than
    /// [`REQUEST_MAX_SIZE`], so this always succeeds.
    pub fn encode(&self) -> (bytes: Result<Vec<u8>, Error>)
        ensures
            bytes matches Ok(out) && out@ == request_bytes(*self) && out.len()
                == REQUEST_MAX_SIZE,
    {
        Ok(self.to_bytes())
    }

    /// The request that `bytes` are, or [`Error::MalformedMessage`] where
    /// they are not exactly one request of the version that is spoken.
    pub fn decode(bytes: &[u8]) -> (request: Result<RotRequest, Error>)
        ensures
            request == (match parse_request(bytes@) {
                Some(r) => Ok::<RotRequest, Error>(r),
                None => Err::<RotRequest, Error>(Error::MalformedMessage),
            }),
    {
        if bytes.len() != REQUEST_MAX_SIZE {
            return Err(Error::MalformedMessage);
        }
        let id = get_le32(bytes, 0);
        let version = get_le32(bytes, 4);
        if version != VERSION {
            return Err(Error::MalformedMessage);
        }
        match RotOpV1::from_code(bytes[8]) {
            Some(op) => Ok(RotRequest { id, version, op }),
            None => Err(Error::MalformedMessage),
        }
    }
}

impl RotResponse {
    /// The bytes of this response, or [`Error::ProtocolSizeExceeded`] where
    /// its payload is larger than [`RESPONSE_MAX_PAYLOAD`]: a response is
    /// never cut short.
    pub fn encode(&self) -> (bytes: Result<Vec<u8>, Error>)
        ensures
            bytes is Ok <==> self.payload.len() <= RESPONSE_MAX_PAYLOAD,
            bytes matches Ok(out) ==> out@ == response_bytes(self@) && out.len()
                <= RESPONSE_MAX_SIZE,
            bytes matches Err(e) ==> e == Error::ProtocolSizeExceeded,
    {
        let n = self.payload.len();
        if n > RESPONSE_MAX_PAYLOAD {
            return Err(Error::ProtocolSizeExceeded);
        }
        let mut out: Vec<u8> = Vec::new();
        put_le32(&mut out, self.id);
        put_le32(&mut out, self.version);
        out.push(self.result.code());
        out.push((n % 256) as u8);
        out.push(((n / 256) % 256) as u8);
        let ghost head = out@;
        assert(head =~= le32(self.id) + le32(self.version) + seq![self.result.code_spec()] + le16(
            n as u16,
        ));
        let mut i: usize = 0;
        while i < n
            invariant
                i <= n,
                n == self.payload.len(),
                out@ == head + self.payload@.take(i as int),
            decreases n - i,
        {
            out.push(self.payload[i]);
            assert(self.payload@.take(i + 1) =~= self.payload@.take(i as int).push(
                self.payload[i as int],
            ));
            assert(head + self.payload@.take(i + 1) =~= (head + self.payload@.take(i as int)).push(
                self.payload[i as int],
            ));
            i += 1;
        }
        assert(self.payload@.take(n as int) =~= self.payload@);
        Ok(out)
    }

    /// The response that `bytes` are, or [`Error::MalformedMessage`] where
    /// they are not exactly one response of the version that is spoken.
    pub fn decode(bytes: &[u8]) -> (response: Result<RotResponse, Error>)
        ensures
            response is Ok <==> parse_response(bytes@) is Some,
            response matches Ok(r) ==> parse_response(bytes@) == Some(r@),
            response matches Err(e) ==> e == Error::MalformedMessage,
    {
        let n = bytes.len();
        if n < RESPONSE_HEADER_SIZE || n > RESPONSE_MAX_SIZE {
            return Err(Error::MalformedMessage);
        }
        let id = get_le32(bytes, 0);
        let version = get_le32(bytes, 4);
        if version != VERSION {
            return Err(Error::MalformedMessage);
        }
        let length = bytes[9] as usize + 256 * (bytes[10] as usize);
        if length != n - RESPONSE_HEADER_SIZE {
            return Err(Error::MalformedMessage);
        }
        let result = match RotResultV1::from_code(bytes[8]) {
            Some(result) => result,
            None => {
                return Err(Error::MalformedMessage);
            },
        };
        let mut payload: Vec<u8> = Vec::new();
        let mut i: usize = RESPONSE_HEADER_SIZE;
        while i < n
            invariant
                RESPONSE_HEADER_SIZE <= i <= n,
                n == bytes.len(),
                payload@ == bytes@.subrange(RESPONSE_HEADER_SIZE as int, i as int),
            decreases n - i,
        {
            payload.push(bytes[i]);
            assert(bytes@.subrange(RESPONSE_HEADER_SIZE as int, i + 1) =~= bytes@.subrange(
                RESPONSE_HEADER_SIZE as int,
                i as int,
            ).push(bytes[i as int]));
            i += 1;
        }
        Ok(RotResponse { id, version, result, payload })
    }
}

/// A request that is encoded and decoded again is the same request, where
/// it is of the version that is spoken.
pub proof fn law_request_round_trip(request: RotRequest)
    requires
        request.version == VERSION,
    ensures
        request_bytes(request).len() == REQUEST_MAX_SIZE,
        parse_request(request_bytes(request)) == Some(request),
{
    let bytes = request_bytes(request);
    lemma_le32_round_trip(request.id);
    lemma_le32_round_trip(request.version);
    assert(bytes.subrange(0, 4) =~= le32(request.id));
    assert(bytes.subrange(4, 8) =~= le32(request.version));
    assert(from_le32(bytes, 0) == from_le32(le32(request.id), 0));
    assert(from_le32(bytes, 4) == from_le32(le32(request.version), 0));
}

/// Bytes that decode to a request are the bytes of that request: no two
/// byte strings are the same request.
pub proof fn law_request_bytes_unique(bytes: Seq<u8>)
    requires
        parse_request(bytes) is Some,
    ensures
        request_bytes(parse_request(bytes)->0) == bytes,
{
    lemma_le32_unique(bytes, 0);
    lemma_le32_unique(bytes, 4);
    let request = parse_request(bytes)->0;
    assert(request_bytes(request) =~= bytes.subrange(0, 4) + bytes.subrange(4, 8) + seq![bytes[8]]);
    assert(bytes.subrange(0, 4) + bytes.subrange(4, 8) + seq![bytes[8]] =~= bytes);
}

/// A response that is encoded and decoded again is the same response, where
/// it is of the version that is spoken and its payload is no larger than a
/// payload may be.
pub proof fn law_response_round_trip(response: ResponseModel)
    requires
        response.version == VERSION,
        response.payload.len() <= RESPONSE_MAX_PAYLOAD,
    ensures
        response_bytes(response).len() <= RESPONSE_MAX_SIZE,
        parse_response(response_bytes(response)) == Some(response),
{
    let bytes = response_bytes(response);
    lemma_le32_round_trip(response.id);
    lemma_le32_round_trip(response.version);
    assert(bytes.subrange(0, 4) =~= le32(response.id));
    assert(bytes.subrange(4, 8) =~= le32(response.version));
    assert(from_le32(bytes, 0) == from_le32(le32(response.id), 0));
    assert(from_le32(bytes, 4) == from_le32(le32(response.version), 0));
    let n = response.payload.len() as u16;
    assert(bytes[9] == le16(n)[0]);
    assert(bytes[10] == le16(n)[1]);
    assert(from_le16(bytes, 9) == n);
    assert(bytes.subrange(RESPONSE_HEADER_SIZE as int, bytes.len() as int) =~= response.payload);
}

/// Bytes that decode to a response are the bytes of that response.
pub proof fn law_response_bytes_unique(bytes: Seq<u8>)
    requires
        parse_response(bytes) is Some,
    ensures
        response_bytes(parse_response(bytes)->0) == bytes,
{
    lemma_le32_unique(bytes, 0);
    lemma_le32_unique(bytes, 4);
    let response = parse_response(bytes)->0;
    let n = response.payload.len() as u16;
    assert(le16(n) =~= bytes.subrange(9, 11));
    assert(response_bytes(response) =~= bytes.subrange(0, 4) + bytes.subrange(4, 8) + seq![
        bytes[8],
    ] + bytes.subrange(9, 11) + bytes.subrange(11, bytes.len() as int));
    assert(bytes.subrange(0, 4) + bytes.subrange(4, 8) + seq![bytes[8]] + bytes.subrange(9, 11)
        + bytes.subrange(11, bytes.len() as int) =~= bytes);
}

/// The two kinds of message.
#[derive(Clone, Copy, Debug, PartialEq, Eq, Structural)]
pub enum MessageKind {
    /// What is sent to the root of trust.
    Request,
    /// What it answers.
    Response,
}

/// A message of either kind.
#[derive(Clone, Debug, PartialEq, Eq)]
pub enum AttestationMessage {
    /// A request.
    Request(RotRequest),
    /// A response.
    Response(RotResponse),
}

/// An [`AttestationMessage`] with its payload as a sequence.
pub enum MessageModel {
    Request(RotRequest),
    Response(ResponseModel),
}

impl View for AttestationMessage {
    type V = MessageModel;

    open spec fn view(&self) -> MessageModel {
        match *self {
            AttestationMessage::Request(r) => MessageModel::Request(r),
            AttestationMessage::Response(r) => MessageModel::Response(r@),
        }
    }
}

impl MessageModel {
    /// The kind of this message.
    pub open spec fn kind(self) -> MessageKind {
        match self {
            MessageModel::Request(_) => MessageKind::Request,
            MessageModel::Response(_) => MessageKind::Response,
        }
    }

    /// The version that this message carries.
    pub open spec fn version(self) -> u32 {
        match self {
            MessageModel::Request(r) => r.version,
            MessageModel::Response(r) => r.version,
        }
    }

    /// Whether this message is no larger than its kind may be.
    pub open spec fn fits(self) -> bool {
        match self {
            MessageModel::Request(_) => true,
            MessageModel::Response(r) => r.payload.len() <= RESPONSE_MAX_PAYLOAD,
        }
    }

    /// The bytes of this message on the wire.
    pub open spec fn bytes(self) -> Seq<u8> {
        match self {
            MessageModel::Request(r) => request_bytes(r),
            MessageModel::Response(r) => response_bytes(r),
        }
    }

    /// The message of the kind `kind` that `bytes` are, if they are one.
    pub open spec fn parse(kind: MessageKind, bytes: Seq<u8>) -> Option<MessageModel> {
        match kind {
            MessageKind::Request => match parse_request(bytes) {
                Some(r) => Some(MessageModel::Request(r)),
                None => None,
            },
            MessageKind::Response => match parse_response(bytes) {
                Some(r) => Some(MessageModel::Response(r)),
                None => None,
            },
        }
    }
}

impl AttestationMessage {
    /// The bytes of this message, or [`Error::ProtocolSizeExceeded`] where
    /// it is larger than a message of its kind may be.
    pub fn encode(&self) -> (bytes: Result<Vec<u8>, Error>)
        ensures
            bytes is Ok <==> self@.fits(),
            bytes matches Ok(out) ==> out@ == self@.bytes(),
            bytes matches Err(e) ==> e == Error::ProtocolSizeExceeded,
    {
        match self {
            AttestationMessage::Request(r) => r.encode(),
            AttestationMessage::Response(r) => r.encode(),
        }
    }

    /// The message of the kind `kind` that `bytes` are, or
    /// [`Error::MalformedMessage`] where they are not exactly one message of
    /// that kind and of the version that is spoken.
    pub fn decode(kind: MessageKind, bytes: &[u8]) -> (message: Result<AttestationMessage, Error>)
        ensures
            message is Ok <==> MessageModel::parse(kind, bytes@) is Some,
            message matches Ok(m) ==> MessageModel::parse(kind, bytes@) == Some(m@),
            message matches Err(e) ==> e == Error::MalformedMessage,
    {
        match kind {
            MessageKind::Request => match RotRequest::decode(bytes) {
                Ok(r) => Ok(AttestationMessage::Request(r)),
                Err(e) => Err(e),
            },
            MessageKind::Response => match RotResponse::decode(bytes) {
                Ok(r) => Ok(AttestationMessage::Response(r)),
                Err(e) => Err(e),
            },
        }
    }
}

/// A message that is encoded and decoded again is the same message, where
/// it is of the version that is spoken and no larger than its kind may be.
pub proof fn law_round_trip(message: MessageModel)
    requires
        message.version() == VERSION,
        message.fits(),
    ensures
        MessageModel::parse(message.kind(), message.bytes()) == Some(message),
{
    match message {
        MessageModel::Request(r) => law_request_round_trip(r),
        MessageModel::Response(r) => law_response_round_trip(r),
    }
}

/// The bytes of one kind of message never decode as the other kind.
pub proof fn law_kinds_apart(message: MessageModel)
    requires
        message.fits(),
    ensures
        message.kind() == MessageKind::Request ==> parse_response(message.bytes()) is None,
        message.kind() == MessageKind::Response ==> parse_request(message.bytes()) is None,
{
}

/// What the operator asks of the root of trust.
#[derive(Clone, Copy, Debug, PartialEq, Eq, Structural)]
pub struct RotSprocketArgs {
    /// Get all endorsed public keys.
    pub get_endorsements: bool,
    /// How long to wait for the answer, in milliseconds.
    pub timeout: u32,
}

/// What is handed to the target for one query: a program, and the bytes
/// that its call takes as input.
#[derive(Clone, Debug, PartialEq, Eq)]
pub struct Query {
    /// Pushes the size of the input, calls the function, and ends.
    pub program: Program,
    /// The encoded request.
    pub input: Vec<u8>,
}

impl RotSprocketArgs {
    /// The operation that is asked for, or [`Error::NoOperation`] where none
    /// is.
    pub fn operation(&self) -> (op: Result<RotOpV1, Error>)
        ensures
            op == (if self.get_endorsements {
                Ok::<RotOpV1, Error>(RotOpV1::GetEndorsements)
            } else {
                Err::<RotOpV1, Error>(Error::NoOperation)
            }),
    {
        if self.get_endorsements {
            Ok(RotOpV1::GetEndorsements)
        } else {
            Err(Error::NoOperation)
        }
    }
}

impl RotOpV1 {
    /// The name of the function on the target that performs this operation.
    pub fn function_name(self) -> (name: &'static str)
        ensures
            name@ == (match self {
                RotOpV1::GetEndorsements => "RotSprocketGetEndorsements"@,
            }),
    {
        match self {
            RotOpV1::GetEndorsements => "RotSprocketGetEndorsements",
        }
    }

    /// The number of arguments that the function takes.
    pub fn function_arguments(self) -> (n: usize)
        ensures
            n == 1,
    {
        1
    }
}

/// The query that asks the root of trust for `op` under the id `id`, to be
/// run by calling `function`: the encoded request as input, and the program
/// that pushes its size, calls `function`, and ends.
pub fn query(id: u32, op: RotOpV1, function: FunctionId) -> (query: Query)
    ensures
        query.input@ == request_bytes(RotRequest { id, version: VERSION, op }),
        query.program.wf(),
        query.program@ == seq![
            Operation::PushConstant(REQUEST_MAX_SIZE as u32),
            Operation::Call(function),
            Operation::Terminate,
        ],
{
    let input = RotRequest::new(id, op).to_bytes();
    let mut program = Program::new();
    program.push(input.len() as u32);
    program.call(function);
    assert(program@ =~= seq![
        Operation::PushConstant(REQUEST_MAX_SIZE as u32),
        Operation::Call(function),
        Operation::Terminate,
    ]);
    Query { program, input }
}

/// What [`answer`] gives.
pub open spec fn answer_spec(results: Seq<Result<Vec<u8>, u32>>) -> Result<ResponseModel, Error> {
    if results.len() != 1 {
        Err(Error::MalformedMessage)
    } else {
        match results[0] {
            Err(code) => Err(Error::RemoteFailure(code)),
            Ok(bytes) => match parse_response(bytes@) {
                Some(response) => Ok(response),
                None => Err(Error::MalformedMessage),
            },
        }
    }
}

/// Takes the results of a query's program and gives the response.
///
/// A query has one call and so one result. Where the call failed on the
/// target, the outcome is [`Error::RemoteFailure`] with the target's code;
/// where there is not exactly one result, or its bytes are no response,
/// [`Error::MalformedMessage`]. The id of the response is not held against
/// that of the request.
pub fn answer(results: &Vec<Result<Vec<u8>, u32>>) -> (response: Result<RotResponse, Error>)
    ensures
        response is Ok <==> answer_spec(results@) is Ok,
        response matches Ok(r) ==> answer_spec(results@) == Ok::<ResponseModel, Error>(r@),
        response matches Err(e) ==> answer_spec(results@) == Err::<ResponseModel, Error>(e),
{
    if results.len() != 1 {
        return Err(Error::MalformedMessage);
    }
    match &results[0] {
        Err(code) => Err(Error::RemoteFailure(*code)),
        Ok(bytes) => RotResponse::decode(bytes.as_slice()),
    }
}

/// The command that queries the root of trust. It requires an archive and
/// a target that is attached and has booted.
pub fn init() -> (command: Command)
    ensures
        command.name@ == "rot-sprocket"@,
        command.archive == Archive::Required,
        command.attach == Attach::LiveOnly,
        command.validate == Validate::Booted,
        command.run == Handler::RotSprocket,
{
    Command::attached(
        "rot-sprocket",
        Archive::Required,
        Attach::LiveOnly,
        Validate::Booted,
        Handler::RotSprocket,
    )
}

} // verus!
