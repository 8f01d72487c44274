//! Framing of the terminal input stream.
//!
//! Every message starts with a five byte header. The first byte is the
//! message kind: `0` announces data, whose length follows as a big-endian
//! `u32`; `1` announces a terminal resize, followed by the width and the
//! height as big-endian `u16`s. Any other kind is refused.

use vstd::prelude::*;

verus! {

/// Length of a message header in bytes.
pub const HEADER_LEN: usize = 5;

/// Header kind byte of a data message.
pub const KIND_DATA: u8 = 0;

/// Header kind byte of a resize message.
pub const KIND_RESIZE: u8 = 1;

/// The value of four bytes read as a big-endian unsigned integer.
pub open spec fn be_u32_value(b0: u8, b1: u8, b2: u8, b3: u8) -> int {
    b0 * 16777216 + b1 * 65536 + b2 * 256 + b3
}

/// The value of two bytes read as a big-endian unsigned integer.
pub open spec fn be_u16_value(b0: u8, b1: u8) -> int {
    b0 * 256 + b1
}

/// The four bytes of `v`, most significant first.
pub open spec fn be_u32_bytes(v: u32) -> Seq<u8> {
    seq![
        (v / 16777216) as u8,
        ((v / 65536) % 256) as u8,
        ((v / 256) % 256) as u8,
        (v % 256) as u8,
    ]
}

/// Reads four bytes as a big-endian `u32`.
pub fn u32_from_be(b0: u8, b1: u8, b2: u8, b3: u8) -> (v: u32)
    ensures
        v == be_u32_value(b0, b1, b2, b3),
{
    (b0 as u32) * 16777216 + (b1 as u32) * 65536 + (b2 as u32) * 256 + (b3 as u32)
}

/// The big-endian bytes of a `u32`.
pub fn u32_to_be(v: u32) -> (bytes: [u8; 4])
    ensures
        bytes@ == be_u32_bytes(v),
        be_u32_value(bytes@[0], bytes@[1], bytes@[2], bytes@[3]) == v,
{
    let bytes = [(v / 16777216) as u8, ((v / 65536) % 256) as u8, ((v / 256) % 256) as u8, (v % 256) as u8];
    assert(bytes@ =~= be_u32_bytes(v));
    bytes
}

/// The two bytes of `v`, most significant first.
pub open spec fn be_u16_bytes(v: u16) -> Seq<u8> {
    seq![(v / 256) as u8, (v % 256) as u8]
}

/// The message that a well-formed header announces.
#[derive(Debug, Clone, Copy, PartialEq, Eq, Structural)]
pub enum FrameHeader {
    /// Data follows; `len` bytes are announced.
    Data { len: u32 },
    /// The terminal is resized to `width` columns and `height` rows.
    Resize { width: u16, height: u16 },
}

/// A header whose kind byte is neither data nor resize.
#[derive(Debug, Clone, Copy, PartialEq, Eq, Structural)]
pub struct InvalidMessage;

impl InvalidMessage {
    /// The text by which this error is shown.
    pub fn message(&self) -> (s: String)
        ensures
            s@ == "Invalid message."@,
    {
        String::from_str("Invalid message.")
    }
}

/// What the header bytes `h` announce.
pub open spec fn header_meaning(h: Seq<u8>) -> Result<FrameHeader, InvalidMessage> {
    if h[0] == KIND_DATA {
        Ok(FrameHeader::Data { len: be_u32_value(h[1], h[2], h[3], h[4]) as u32 })
    } else if h[0] == KIND_RESIZE {
        Ok(
            FrameHeader::Resize {
                width: be_u16_value(h[1], h[2]) as u16,
                height: be_u16_value(h[3], h[4]) as u16,
            },
        )
    } else {
        Err(InvalidMessage)
    }
}

/// Decodes a message header.
pub fn decode_header(header: &[u8; 5]) -> (res: Result<FrameHeader, InvalidMessage>)
    ensures
        res == header_meaning(header@),
{
    let kind = header[0];
    if kind == KIND_DATA {
        let len = u32_from_be(header[1], header[2], header[3], header[4]);
        Ok(FrameHeader::Data { len })
    } else if kind == KIND_RESIZE {
        let width = (header[1] as u16) * 256 + (header[2] as u16);
        let height = (header[3] as u16) * 256 + (header[4] as u16);
        Ok(FrameHeader::Resize { width, height })
    } else {
        Err(InvalidMessage)
    }
}

/// One message taken from the input stream.
#[derive(Debug, PartialEq, Eq)]
pub enum InputEvent {
    /// Bytes to be written to the terminal.
    Data(Vec<u8>),
    /// A new terminal size.
    Resize { width: u16, height: u16 },
}

/// A message together with the number of input bytes it took.
#[derive(Debug, PartialEq, Eq)]
pub struct Decoded {
    pub event: InputEvent,
    pub consumed: usize,
}

/// Why no message could be taken from the input.
#[derive(Debug, PartialEq, Eq)]
pub enum ReadError {
    /// The input ended before a whole header was read.
    Truncated,
    /// The header is not a valid one.
    Invalid(InvalidMessage),
}

/// The number of data bytes delivered for the data message at the start of
/// `input`: what the header announces, or what the input still holds after
/// the header if that is less.
pub open spec fn data_len(input: Seq<u8>) -> int {
    let announced = be_u32_value(input[1], input[2], input[3], input[4]);
    let available = input.len() - HEADER_LEN;
    if announced <= available {
        announced
    } else {
        available
    }
}

/// `res` is what reading one message from the stream `input` gives.
pub open spec fn reads_as(input: Seq<u8>, res: Result<Decoded, ReadError>) -> bool {
    if input.len() < HEADER_LEN {
        res == Err::<Decoded, ReadError>(ReadError::Truncated)
    } else if input[0] == KIND_DATA {
        &&& res matches Ok(d)
        &&& d.consumed == HEADER_LEN + data_len(input)
        &&& d.event matches InputEvent::Data(bytes)
        &&& bytes@ == input.subrange(HEADER_LEN as int, HEADER_LEN + data_len(input))
    } else if input[0] == KIND_RESIZE {
        &&& res matches Ok(d)
        &&& d.consumed == HEADER_LEN
        &&& d.event == InputEvent::Resize {
            width: be_u16_value(input[1], input[2]) as u16,
            height: be_u16_value(input[3], input[4]) as u16,
        }
    } else {
        res == Err::<Decoded, ReadError>(ReadError::Invalid(InvalidMessage))
    }
}

/// Reads one message from the start of the input stream `input`.
///
/// A data message delivers the bytes that follow its header, as many as the
/// header announces or, where the stream ends sooner, as many as there are.
/// A resize message delivers the new size. Fewer than five bytes, or an
/// unknown kind byte, give an error.
pub fn read(input: &[u8]) -> (res: Result<Decoded, ReadError>)
    ensures
        reads_as(input@, res),
{
    if input.len() < HEADER_LEN {
        return Err(ReadError::Truncated);
    }
    let header: [u8; 5] = [input[0], input[1], input[2], input[3], input[4]];
    match decode_header(&header) {
        Err(e) => Err(ReadError::Invalid(e)),
        Ok(FrameHeader::Resize { width, height }) => Ok(
            Decoded { event: InputEvent::Resize { width, height }, consumed: HEADER_LEN },
        ),
        Ok(FrameHeader::Data { len }) => {
            let available: usize = input.len() - HEADER_LEN;
            let announced: usize = len as usize;
            let n: usize = if announced <= available {
                announced
            } else {
                available
            };
            assert(n == data_len(input@));
            let mut payload: Vec<u8> = Vec::new();
            let mut i: usize = 0;
            while i < n
                invariant
                    n == data_len(input@),
                    HEADER_LEN + n <= input.len(),
                    i <= n,
                    payload@ =~= input@.subrange(HEADER_LEN as int, HEADER_LEN + i),
                decreases n - i,
            {
                payload.push(input[HEADER_LEN + i]);
                i += 1;
            }
            Ok(Decoded { event: InputEvent::Data(payload), consumed: HEADER_LEN + n })
        },
    }
}

/// The data message that carries `payload`.
pub open spec fn data_frame(payload: Seq<u8>) -> Seq<u8> {
    seq![KIND_DATA] + be_u32_bytes(payload.len() as u32) + payload
}

/// Frames `payload` as a data message: the data kind byte, the payload's
/// length as a big-endian `u32`, then the payload. A length beyond
/// `u32::MAX` is written reduced to 32 bits.
pub fn encode_data_frame(payload: &[u8]) -> (frame: Vec<u8>)
    ensures
        frame@ == data_frame(payload@),
{
    let len: usize = payload.len();
    let len32: u32 = len as u32;
    let len_bytes = u32_to_be(len32);
    let mut frame: Vec<u8> = Vec::new();
    frame.push(KIND_DATA);
    frame.push(len_bytes[0]);
    frame.push(len_bytes[1]);
    frame.push(len_bytes[2]);
    frame.push(len_bytes[3]);
    let mut i: usize = 0;
    while i < len
        invariant
            len == payload@.len(),
            i <= len,
            frame@ =~= seq![KIND_DATA] + be_u32_bytes(len32) + payload@.subrange(0, i as int),
        decreases len - i,
    {
        frame.push(payload[i]);
        i += 1;
    }
    assert(payload@.subrange(0, len as int) =~= payload@);
    frame
}

/// The resize message that announces `width` columns and `height` rows.
pub open spec fn resize_frame(width: u16, height: u16) -> Seq<u8> {
    seq![KIND_RESIZE] + be_u16_bytes(width) + be_u16_bytes(height)
}

proof fn lemma_be_u32_roundtrip(v: u32)
    ensures
        be_u32_bytes(v).len() == 4,
        be_u32_value(be_u32_bytes(v)[0], be_u32_bytes(v)[1], be_u32_bytes(v)[2], be_u32_bytes(v)[3])
            == v,
{
}

/// A data message that carries a payload of at most `u32::MAX` bytes, read
/// from a stream in which anything may follow it, gives back exactly that
/// payload and takes exactly the message's bytes, so that the next read
/// starts where the following message starts.
pub proof fn lemma_data_frame_roundtrip(
    payload: Seq<u8>,
    rest: Seq<u8>,
    res: Result<Decoded, ReadError>,
)
    requires
        payload.len() <= u32::MAX,
        reads_as(data_frame(payload) + rest, res),
    ensures
        res matches Ok(d),
        res->Ok_0.consumed == data_frame(payload).len(),
        res->Ok_0.consumed == HEADER_LEN + payload.len(),
        res->Ok_0.event matches InputEvent::Data(bytes) && bytes@ == payload,
{
    let input = data_frame(payload) + rest;
    lemma_be_u32_roundtrip(payload.len() as u32);
    assert(input[0] == KIND_DATA);
    assert(input[1] == be_u32_bytes(payload.len() as u32)[0]);
    assert(input[2] == be_u32_bytes(payload.len() as u32)[1]);
    assert(input[3] == be_u32_bytes(payload.len() as u32)[2]);
    assert(input[4] == be_u32_bytes(payload.len() as u32)[3]);
    assert(data_len(input) == payload.len());
    assert(input.subrange(HEADER_LEN as int, HEADER_LEN + payload.len()) =~= payload);
}

/// A resize message, read from a stream in which anything may follow it,
/// gives back the size it announces and takes its five bytes.
pub proof fn lemma_resize_frame_roundtrip(
    width: u16,
    height: u16,
    rest: Seq<u8>,
    res: Result<Decoded, ReadError>,
)
    requires
        reads_as(resize_frame(width, height) + rest, res),
    ensures
        res matches Ok(d),
        res->Ok_0.consumed == HEADER_LEN,
        res->Ok_0.event == (InputEvent::Resize { width, height }),
{
    let input = resize_frame(width, height) + rest;
    assert(input[0] == KIND_RESIZE);
    assert(input[1] == be_u16_bytes(width)[0]);
    assert(input[2] == be_u16_bytes(width)[1]);
    assert(input[3] == be_u16_bytes(height)[0]);
    assert(input[4] == be_u16_bytes(height)[1]);
}

} // verus!
