//! The wire format of a frame: a four-byte opcode and a four-byte payload
//! length, both little-endian, followed by the payload bytes.

use vstd::prelude::*;

verus! {

/// Number of bytes in a frame header.
pub const HEADER_LEN: usize = 8;

/// Largest payload that a decoder accepts unless told otherwise: four mebibytes.
pub const DEFAULT_MAX_PAYLOAD: u32 = 0x40_0000;

/// The four bytes that stand for `x` on the wire, least significant first.
pub open spec fn le_bytes(x: u32) -> Seq<u8> {
    seq![
        (x % 0x100) as u8,
        (x / 0x100 % 0x100) as u8,
        (x / 0x1_0000 % 0x100) as u8,
        (x / 0x100_0000 % 0x100) as u8,
    ]
}

/// The number that the first four bytes of `b` stand for.
pub open spec fn le_value(b: Seq<u8>) -> int
    recommends
        b.len() >= 4,
{
    b[0] + 0x100 * b[1] + 0x1_0000 * b[2] + 0x100_0000 * b[3]
}

/// Reading four bytes back gives the number that was written.
pub proof fn lemma_le_round_trip(x: u32)
    ensures
        le_bytes(x).len() == 4,
        le_value(le_bytes(x)) == x,
{
    let q1 = x / 0x100;
    let q2 = q1 / 0x100;
    let q3 = q2 / 0x100;
    assert(x == 0x100 * q1 + x % 0x100);
    assert(q1 == 0x100 * q2 + q1 % 0x100);
    assert(q2 == 0x100 * q3 + q2 % 0x100);
    assert(q3 < 0x100);
    assert(x / 0x1_0000 == q2);
    assert(x / 0x100_0000 == q3);
}

/// Four bytes stand for a number that fits in `u32`, and writing that number
/// gives the same four bytes.
pub proof fn lemma_le_value_bounds(b: Seq<u8>)
    requires
        b.len() == 4,
    ensures
        0 <= le_value(b) <= u32::MAX,
        le_bytes(le_value(b) as u32) == b,
{
    let (b0, b1, b2, b3) = (b[0] as int, b[1] as int, b[2] as int, b[3] as int);
    let v = le_value(b);
    assert(v % 0x100 == b0 && v / 0x100 == b1 + 0x100 * b2 + 0x1_0000 * b3) by {
        lemma_digits(b0, b1 + 0x100 * b2 + 0x1_0000 * b3, 0x100);
    }
    assert(v / 0x100 % 0x100 == b1) by {
        lemma_digits(b1, b2 + 0x100 * b3, 0x100);
    }
    assert(v / 0x1_0000 % 0x100 == b2 && v / 0x1_0000 == b2 + 0x100 * b3) by {
        lemma_digits(b0 + 0x100 * b1, b2 + 0x100 * b3, 0x1_0000);
        lemma_digits(b2, b3, 0x100);
    }
    assert(v / 0x100_0000 % 0x100 == b3 && v / 0x100_0000 == b3) by {
        lemma_digits(b0 + 0x100 * b1 + 0x1_0000 * b2, b3, 0x100_0000);
        lemma_digits(b3, 0, 0x100);
    }
    assert(le_bytes(v as u32) =~= b);
}

/// A number below `base` with a multiple of `base` added: the remainder is the
/// number, the quotient the multiple's factor.
proof fn lemma_digits(low: int, high: int, base: int)
    requires
        0 <= low < base,
        0 <= high,
    ensures
        (low + base * high) % base == low,
        (low + base * high) / base == high,
{
    assert(base * high == high * base) by (nonlinear_arith);
    vstd::arithmetic::div_mod::lemma_fundamental_div_mod_converse(
        low + base * high,
        base,
        high,
        low,
    );
}

/// Writes `x` as four little-endian bytes at the end of `out`.
fn push_le(out: &mut Vec<u8>, x: u32)
    ensures
        final(out)@ == old(out)@ + le_bytes(x),
{
    out.push((x % 0x100) as u8);
    out.push((x / 0x100 % 0x100) as u8);
    out.push((x / 0x1_0000 % 0x100) as u8);
    out.push((x / 0x100_0000 % 0x100) as u8);
    assert(out@ =~= old(out)@ + le_bytes(x));
}

/// Reads the little-endian number held in `bytes[at..at + 4]`.
fn read_le(bytes: &[u8], at: usize) -> (x: u32)
    requires
        at + 4 <= bytes@.len(),
    ensures
        x == le_value(bytes@.subrange(at as int, at + 4)),
{
    let b0: u32 = bytes[at] as u32;
    let b1: u32 = bytes[at + 1] as u32;
    let b2: u32 = bytes[at + 2] as u32;
    let b3: u32 = bytes[at + 3] as u32;
    b0 + 0x100 * b1 + 0x1_0000 * b2 + 0x100_0000 * b3
}

/// The opcodes of the protocol.
#[derive(Clone, Copy, Debug, PartialEq, Eq, Structural)]
pub enum Opcode {
    Handshake,
    Frame,
    Close,
    Ping,
    Pong,
}

impl Opcode {
    /// The number that stands for this opcode on the wire.
    pub open spec fn spec_code(self) -> u32 {
        match self {
            Opcode::Handshake => 0,
            Opcode::Frame => 1,
            Opcode::Close => 2,
            Opcode::Ping => 3,
            Opcode::Pong => 4,
        }
    }

    /// The opcode that `code` stands for, if any.
    pub open spec fn spec_from_code(code: u32) -> Option<Opcode> {
        if code == 0 {
            Some(Opcode::Handshake)
        } else if code == 1 {
            Some(Opcode::Frame)
        } else if code == 2 {
            Some(Opcode::Close)
        } else if code == 3 {
            Some(Opcode::Ping)
        } else if code == 4 {
            Some(Opcode::Pong)
        } else {
            None
        }
    }

    /// The number that stands for this opcode on the wire.
    #[verifier::when_used_as_spec(spec_code)]
    pub fn code(self) -> (code: u32)
        ensures
            code == self.spec_code(),
            Opcode::spec_from_code(code) == Some(self),
    {
        match self {
            Opcode::Handshake => 0,
            Opcode::Frame => 1,
            Opcode::Close => 2,
            Opcode::Ping => 3,
            Opcode::Pong => 4,
        }
    }

    /// The opcode that `code` stands for; `None` for a number above four.
    pub fn from_code(code: u32) -> (op: Option<Opcode>)
        ensures
            op == Opcode::spec_from_code(code),
            op matches Some(o) ==> o.spec_code() == code,
            op is None <==> code > 4,
    {
        match code {
            0 => Some(Opcode::Handshake),
            1 => Some(Opcode::Frame),
            2 => Some(Opcode::Close),
            3 => Some(Opcode::Ping),
            4 => Some(Opcode::Pong),
            _ => None,
        }
    }
}

/// Why a frame could not be encoded or decoded.
#[derive(Clone, Copy, Debug, PartialEq, Eq, Structural)]
pub enum FrameError {
    /// The payload is longer than a length field can say.
    PayloadTooLarge,
    /// Fewer than eight bytes stand where a header is expected.
    TruncatedHeader,
    /// The header announces a payload above the decoder's limit.
    LengthOverLimit,
    /// Fewer bytes follow the header than it announces.
    TruncatedPayload,
}

/// The fixed-size part of a frame.
#[derive(Clone, Copy, Debug, PartialEq, Eq, Structural)]
pub struct FrameHeader {
    pub opcode: u32,
    /// Number of payload bytes that follow the header.
    pub length: u32,
}

/// One message unit: an opcode and its payload.
#[derive(Debug, PartialEq, Eq)]
pub struct Frame {
    pub opcode: u32,
    pub payload: Vec<u8>,
}

/// What a `Frame` stands for.
pub ghost struct FrameView {
    pub opcode: u32,
    pub payload: Seq<u8>,
}

impl View for Frame {
    type V = FrameView;

    open spec fn view(&self) -> FrameView {
        FrameView { opcode: self.opcode, payload: self.payload@ }
    }
}

/// The wire bytes of a frame with this opcode and payload.
pub open spec fn encoding(opcode: u32, payload: Seq<u8>) -> Seq<u8>
    recommends
        payload.len() <= u32::MAX,
{
    le_bytes(opcode) + le_bytes(payload.len() as u32) + payload
}

/// What the first eight bytes of `bytes` say, for a decoder that accepts
/// payloads of up to `max_len` bytes.
pub open spec fn header_of(bytes: Seq<u8>, max_len: u32) -> Result<FrameHeader, FrameError> {
    if bytes.len() < 8 {
        Err(FrameError::TruncatedHeader)
    } else if le_value(bytes.subrange(4, 8)) > max_len {
        Err(FrameError::LengthOverLimit)
    } else {
        Ok(
            FrameHeader {
                opcode: le_value(bytes.subrange(0, 4)) as u32,
                length: le_value(bytes.subrange(4, 8)) as u32,
            },
        )
    }
}

/// The frame at the front of `bytes`, for a decoder that accepts payloads of
/// up to `max_len` bytes. Bytes after the frame are not looked at.
pub open spec fn decoding(bytes: Seq<u8>, max_len: u32) -> Result<FrameView, FrameError> {
    match header_of(bytes, max_len) {
        Err(e) => Err(e),
        Ok(h) => if bytes.len() < 8 + h.length {
            Err(FrameError::TruncatedPayload)
        } else {
            Ok(FrameView { opcode: h.opcode, payload: bytes.subrange(8, 8 + h.length) })
        },
    }
}

/// Writes the frame with this opcode and payload.
pub(crate) fn write_frame(opcode: u32, payload: &[u8]) -> (bytes: Vec<u8>)
    requires
        payload@.len() <= u32::MAX,
    ensures
        bytes@ == encoding(opcode, payload@),
{
    let mut bytes: Vec<u8> = Vec::new();
    push_le(&mut bytes, opcode);
    push_le(&mut bytes, payload.len() as u32);
    bytes.extend_from_slice(payload);
    assert(bytes@ =~= encoding(opcode, payload@));
    bytes
}

/// Encodes a frame. Fails only for a payload whose length does not fit in the
/// four-byte length field.
pub fn encode(opcode: u32, payload: &[u8]) -> (res: Result<Vec<u8>, FrameError>)
    ensures
        match res {
            Ok(bytes) => payload@.len() <= u32::MAX && bytes@ == encoding(opcode, payload@),
            Err(e) => payload@.len() > u32::MAX && e == FrameError::PayloadTooLarge,
        },
{
    if payload.len() > u32::MAX as usize {
        Err(FrameError::PayloadTooLarge)
    } else {
        Ok(write_frame(opcode, payload))
    }
}

/// Decodes a frame header from the front of `bytes`. A header that announces
/// more than `max_len` payload bytes is refused here, before any of the
/// payload is asked for.
pub fn decode_header(bytes: &[u8], max_len: u32) -> (res: Result<FrameHeader, FrameError>)
    ensures
        res == header_of(bytes@, max_len),
{
    if bytes.len() < HEADER_LEN {
        return Err(FrameError::TruncatedHeader);
    }
    let opcode = read_le(bytes, 0);
    let length = read_le(bytes, 4);
    if length > max_len {
        return Err(FrameError::LengthOverLimit);
    }
    Ok(FrameHeader { opcode, length })
}

/// Decodes the frame at the front of `bytes`.
pub fn decode(bytes: &[u8], max_len: u32) -> (res: Result<Frame, FrameError>)
    ensures
        match res {
            Ok(frame) => decoding(bytes@, max_len) == Ok::<FrameView, FrameError>(frame@),
            Err(e) => decoding(bytes@, max_len) == Err::<FrameView, FrameError>(e),
        },
{
    let header = match decode_header(bytes, max_len) {
        Ok(h) => h,
        Err(e) => {
            return Err(e);
        },
    };
    let length = header.length as usize;
    if bytes.len() - HEADER_LEN < length {
        return Err(FrameError::TruncatedPayload);
    }
    let mut payload: Vec<u8> = Vec::new();
    payload.extend_from_slice(vstd::slice::slice_subrange(bytes, HEADER_LEN, HEADER_LEN + length));
    assert(payload@ =~= bytes@.subrange(8, 8 + header.length));
    Ok(Frame { opcode: header.opcode, payload })
}

impl Frame {
    /// Puts a decoded header and the payload that was read after it together.
    /// `None` where the payload does not have the length that the header
    /// announces.
    pub fn from_parts(header: FrameHeader, payload: Vec<u8>) -> (res: Option<Frame>)
        ensures
            match res {
                Some(frame) => payload@.len() == header.length && frame@ == (FrameView {
                    opcode: header.opcode,
                    payload: payload@,
                }),
                None => payload@.len() != header.length,
            },
    {
        if payload.len() == header.length as usize {
            Some(Frame { opcode: header.opcode, payload })
        } else {
            None
        }
    }
}

impl FrameError {
    /// A sentence that says what went wrong.
    pub open spec fn spec_message(self) -> Seq<char> {
        match self {
            FrameError::PayloadTooLarge => "payload does not fit the frame's length field"@,
            FrameError::TruncatedHeader => "frame header is incomplete"@,
            FrameError::LengthOverLimit => "frame announces a payload above the limit"@,
            FrameError::TruncatedPayload => "frame payload is incomplete"@,
        }
    }

    /// A sentence that says what went wrong.
    pub fn message(&self) -> (text: &'static str)
        ensures
            text@ == self.spec_message(),
    {
        match self {
            FrameError::PayloadTooLarge => "payload does not fit the frame's length field",
            FrameError::TruncatedHeader => "frame header is incomplete",
            FrameError::LengthOverLimit => "frame announces a payload above the limit",
            FrameError::TruncatedPayload => "frame payload is incomplete",
        }
    }
}

/// Round trip: decoding what `encode` wrote gives back the opcode and the
/// payload, as long as the payload is within the decoder's limit.
pub proof fn lemma_decode_encode(opcode: u32, payload: Seq<u8>, max_len: u32)
    requires
        payload.len() <= max_len,
    ensures
        decoding(encoding(opcode, payload), max_len) == Ok::<FrameView, FrameError>(
            FrameView { opcode, payload },
        ),
{
    lemma_decode_ignores_rest(opcode, payload, Seq::empty(), max_len);
    assert(encoding(opcode, payload) + Seq::<u8>::empty() =~= encoding(opcode, payload));
}

/// Decoding reads one frame and no more: bytes that follow an encoded frame
/// do not change what is decoded.
pub proof fn lemma_decode_ignores_rest(
    opcode: u32,
    payload: Seq<u8>,
    rest: Seq<u8>,
    max_len: u32,
)
    requires
        payload.len() <= max_len,
    ensures
        decoding(encoding(opcode, payload) + rest, max_len) == Ok::<FrameView, FrameError>(
            FrameView { opcode, payload },
        ),
{
    let length = payload.len() as u32;
    lemma_le_round_trip(opcode);
    lemma_le_round_trip(length);
    let bytes = encoding(opcode, payload) + rest;
    assert(bytes.subrange(0, 4) =~= le_bytes(opcode));
    assert(bytes.subrange(4, 8) =~= le_bytes(length));
    assert(bytes.subrange(8, 8 + length) =~= payload);
}

/// Length guard: a header that announces more than the limit fails the
/// decoding with `LengthOverLimit`, however many bytes follow it.
pub proof fn lemma_length_guard(bytes: Seq<u8>, max_len: u32)
    requires
        bytes.len() >= 8,
        le_value(bytes.subrange(4, 8)) > max_len,
    ensures
        header_of(bytes, max_len) == Err::<FrameHeader, FrameError>(FrameError::LengthOverLimit),
        header_of(bytes.subrange(0, 8), max_len) == Err::<FrameHeader, FrameError>(
            FrameError::LengthOverLimit,
        ),
        decoding(bytes, max_len) == Err::<FrameView, FrameError>(FrameError::LengthOverLimit),
{
    assert(bytes.subrange(0, 8).subrange(4, 8) =~= bytes.subrange(4, 8));
}

/// Whatever decodes was encoded: the bytes that a decoded frame was read from
/// are the encoding of that frame, and its payload is within the limit.
pub proof fn lemma_decoded_is_encoded(bytes: Seq<u8>, max_len: u32)
    requires
        decoding(bytes, max_len) is Ok,
    ensures
        ({
            let frame = decoding(bytes, max_len)->Ok_0;
            &&& frame.payload.len() <= max_len
            &&& 8 + frame.payload.len() <= bytes.len()
            &&& bytes.subrange(0, 8 + frame.payload.len() as int) == encoding(
                frame.opcode,
                frame.payload,
            )
        }),
{
    let frame = decoding(bytes, max_len)->Ok_0;
    lemma_le_value_bounds(bytes.subrange(0, 4));
    lemma_le_value_bounds(bytes.subrange(4, 8));
    assert(bytes.subrange(0, 8 + frame.payload.len() as int) =~= encoding(frame.opcode, frame.payload));
}

} // verus!
