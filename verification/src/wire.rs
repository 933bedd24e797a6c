//! Length-prefixed framing of messages on a stream: every message is sent as a
//! 4-byte big-endian length followed by that many bytes of payload. The reader
//! is a state machine: the caller performs the reads it asks for and hands back
//! what came in; the payload it delivers is decoded by the caller.

use crate::errors::AppErr;
use vstd::prelude::*;

verus! {

/// The four bytes of `v`, most significant first.
pub open spec fn be_u32_bytes(v: u32) -> Seq<u8> {
    seq![
        (v / 0x100_0000) as u8,
        ((v / 0x1_0000) % 0x100) as u8,
        ((v / 0x100) % 0x100) as u8,
        (v % 0x100) as u8,
    ]
}

/// The number whose big-endian bytes are the first four of `b`.
pub open spec fn be_u32_value(b: Seq<u8>) -> nat
    recommends
        b.len() == 4,
{
    (b[0] * 0x100_0000 + b[1] * 0x1_0000 + b[2] * 0x100 + b[3]) as nat
}

/// The length field written for a payload of `len` bytes: the length taken
/// modulo 2^32, as a cast to `u32` does.
pub open spec fn length_field(len: nat) -> u32 {
    (len % 0x1_0000_0000) as u32
}

/// The bytes written for a payload: its length field, then the payload.
pub open spec fn encoded_message(payload: Seq<u8>) -> Seq<u8> {
    be_u32_bytes(length_field(payload.len())) + payload
}

/// The four bytes written for a number are its standard big-endian
/// encoding: the most significant byte first, the least significant last.
pub proof fn lemma_header_is_big_endian(v: u32)
    ensures
        be_u32_bytes(v).len() == 4,
        be_u32_bytes(v)[0] == v / 0x100_0000,
        be_u32_bytes(v)[1] == (v / 0x1_0000) % 0x100,
        be_u32_bytes(v)[2] == (v / 0x100) % 0x100,
        be_u32_bytes(v)[3] == v % 0x100,
{
    assert(v / 0x100_0000 < 0x100) by (bit_vector);
}

/// The length a header announces is its bytes read most significant first:
/// the first byte counts 2^24, the second 2^16, the third 2^8, the last 1.
pub proof fn lemma_announced_length_is_big_endian(b: Seq<u8>)
    requires
        b.len() == 4,
    ensures
        be_u32_value(b) == b[0] * 0x100_0000 + b[1] * 0x1_0000 + b[2] * 0x100 + b[3],
{
}

/// Decoding the big-endian bytes of a number gives the number back.
pub proof fn lemma_be_u32_roundtrip(v: u32)
    ensures
        be_u32_value(be_u32_bytes(v)) == v,
{
    let b = be_u32_bytes(v);
    assert(b[0] == (v / 0x100_0000) as u8);
    assert(b[1] == ((v / 0x1_0000) % 0x100) as u8);
    assert(b[2] == ((v / 0x100) % 0x100) as u8);
    assert(b[3] == (v % 0x100) as u8);
    assert(((v / 0x100_0000) as u8) as int * 0x100_0000 + (((v / 0x1_0000) % 0x100) as u8) as int
        * 0x1_0000 + (((v / 0x100) % 0x100) as u8) as int * 0x100 + ((v % 0x100) as u8) as int
        == v) by (bit_vector);
}

/// The header announcing a payload of `len` bytes.
pub fn length_header(len: usize) -> (header: [u8; 4])
    ensures
        header@ == be_u32_bytes(length_field(len as nat)),
        header@[0] == (len as int % 0x1_0000_0000) / 0x100_0000,
        header@[1] == (len as int / 0x1_0000) % 0x100,
        header@[2] == (len as int / 0x100) % 0x100,
        header@[3] == len as int % 0x100,
{
    let wide: u64 = len as u64;
    let v: u32 = (wide % 0x1_0000_0000) as u32;
    let header: [u8; 4] = [
        (v / 0x100_0000) as u8,
        ((v / 0x1_0000) % 0x100) as u8,
        ((v / 0x100) % 0x100) as u8,
        (v % 0x100) as u8,
    ];
    assert(header@ =~= be_u32_bytes(length_field(len as nat)));
    assert(v == wide % 0x1_0000_0000);
    assert(((wide % 0x1_0000_0000) / 0x100_0000) as u8 == (wide % 0x1_0000_0000) / 0x100_0000
        && (((wide % 0x1_0000_0000) / 0x1_0000) % 0x100) as u8 == (wide / 0x1_0000) % 0x100
        && (((wide % 0x1_0000_0000) / 0x100) % 0x100) as u8 == (wide / 0x100) % 0x100
        && ((wide % 0x1_0000_0000) % 0x100) as u8 == wide % 0x100) by (bit_vector);
    header
}

/// The payload length that a header announces.
pub fn announced_length(header: [u8; 4]) -> (len: usize)
    ensures
        len == be_u32_value(header@),
        len == header@[0] * 0x100_0000 + header@[1] * 0x1_0000 + header@[2] * 0x100 + header@[3],
{
    let b0: u32 = header[0] as u32;
    let b1: u32 = header[1] as u32;
    let b2: u32 = header[2] as u32;
    let b3: u32 = header[3] as u32;
    let v: u32 = b0 * 0x100_0000 + b1 * 0x1_0000 + b2 * 0x100 + b3;
    v as usize
}

/// The bytes to write for `payload`: its header, then the payload itself.
pub fn encode_message(payload: &[u8]) -> (message: Vec<u8>)
    ensures
        message@ == encoded_message(payload@),
        message@.len() == 4 + payload@.len(),
        message@[0] == (payload@.len() % 0x1_0000_0000) / 0x100_0000,
        message@[1] == (payload@.len() / 0x1_0000) % 0x100,
        message@[2] == (payload@.len() / 0x100) % 0x100,
        message@[3] == payload@.len() % 0x100,
        message@.skip(4) == payload@,
{
    let header = length_header(payload.len());
    let mut message: Vec<u8> = Vec::new();
    message.push(header[0]);
    message.push(header[1]);
    message.push(header[2]);
    message.push(header[3]);
    assert(message@ =~= header@);
    let mut i: usize = 0;
    while i < payload.len()
        invariant
            i <= payload@.len(),
            message@ == header@ + payload@.take(i as int),
        decreases payload@.len() - i,
    {
        message.push(payload[i]);
        assert(payload@.take(i + 1) =~= payload@.take(i as int).push(payload@[i as int]));
        i = i + 1;
    }
    assert(payload@.take(payload@.len() as int) =~= payload@);
    message
}

/// What a framed message carries, which decides the texts of its errors.
#[derive(Debug, Clone, Copy, PartialEq, Eq, Structural)]
pub enum MessageKind {
    Frame,
    HandShake,
}

pub open spec fn header_error_text(kind: MessageKind) -> Seq<char> {
    match kind {
        MessageKind::Frame => "Frame lenght reading error"@,
        MessageKind::HandShake => "HandShake lenght reading error"@,
    }
}

pub open spec fn body_error_text(kind: MessageKind) -> Seq<char> {
    match kind {
        MessageKind::Frame => "Reading exact Frame"@,
        MessageKind::HandShake => "Reading exact handshake"@,
    }
}

pub open spec fn decode_error_text(kind: MessageKind) -> Seq<char> {
    match kind {
        MessageKind::Frame => "Frame decode err"@,
        MessageKind::HandShake => "Handshake decode err"@,
    }
}

pub open spec fn encode_error_text(kind: MessageKind) -> Seq<char> {
    match kind {
        MessageKind::Frame => "Frame serialize err"@,
        MessageKind::HandShake => "Handshake serialize err"@,
    }
}

pub open spec fn write_error_text(kind: MessageKind) -> Seq<char> {
    match kind {
        MessageKind::Frame => "Frame Writting Err"@,
        MessageKind::HandShake => "HandShake Writting Err"@,
    }
}

/// Where a reader stands: waiting for the header, waiting for a payload of
/// the given length, or finished.
#[derive(Debug, Clone, Copy, PartialEq, Eq, Structural)]
pub enum ReadState {
    Header,
    Body(usize),
    Finished,
}

/// What a reader asks of its caller next.
#[derive(Debug)]
pub enum ReadAction {
    /// Read exactly this many bytes and hand them back.
    ReadExact(usize),
    /// The payload is complete: decode it.
    Decode(Vec<u8>),
    /// Reading failed; the message is lost.
    Fail(AppErr),
}

/// The reading side of one framed message.
#[derive(Debug)]
pub struct MessageReader {
    pub kind: MessageKind,
    pub state: ReadState,
}

impl MessageReader {
    /// A reader for one message of `kind`; it first asks for the 4 header bytes.
    pub fn new(kind: MessageKind) -> (started: (MessageReader, ReadAction))
        ensures
            started.0.kind == kind,
            started.0.state == ReadState::Header,
            started.1 == ReadAction::ReadExact(4),
    {
        (MessageReader { kind, state: ReadState::Header }, ReadAction::ReadExact(4))
    }

    /// Takes the outcome of the read that was asked for: the bytes, or `None`
    /// when the stream failed before they all came.
    pub fn on_read(&mut self, chunk: Option<Vec<u8>>) -> (action: ReadAction)
        requires
            !(old(self).state is Finished),
            old(self).state is Header && chunk is Some ==> chunk.unwrap()@.len() == 4,
            forall|n: usize|
                old(self).state == ReadState::Body(n) && chunk is Some ==> chunk.unwrap()@.len()
                    == n,
        ensures
            final(self).kind == old(self).kind,
            old(self).state is Header && chunk is None ==> {
                &&& final(self).state is Finished
                &&& action matches ReadAction::Fail(e)
                &&& e is ReadErr
                &&& e.detail() == header_error_text(old(self).kind)
            },
            old(self).state is Header && chunk is Some ==> {
                &&& final(self).state == ReadState::Body(be_u32_value(chunk.unwrap()@) as usize)
                &&& action == ReadAction::ReadExact(be_u32_value(chunk.unwrap()@) as usize)
            },
            old(self).state is Body && chunk is None ==> {
                &&& final(self).state is Finished
                &&& action matches ReadAction::Fail(e)
                &&& e is ReadErr
                &&& e.detail() == body_error_text(old(self).kind)
            },
            old(self).state is Body && chunk is Some ==> {
                &&& final(self).state is Finished
                &&& action matches ReadAction::Decode(payload)
                &&& payload@ == chunk.unwrap()@
            },
    {
        match self.state {
            ReadState::Header => match chunk {
                None => {
                    self.state = ReadState::Finished;
                    let text = match self.kind {
                        MessageKind::Frame => "Frame lenght reading error".to_string(),
                        MessageKind::HandShake => "HandShake lenght reading error".to_string(),
                    };
                    ReadAction::Fail(AppErr::ReadErr(text))
                },
                Some(bytes) => {
                    let header: [u8; 4] = [bytes[0], bytes[1], bytes[2], bytes[3]];
                    assert(header@ =~= bytes@);
                    let n = announced_length(header);
                    self.state = ReadState::Body(n);
                    ReadAction::ReadExact(n)
                },
            },
            ReadState::Body(_) => {
                self.state = ReadState::Finished;
                match chunk {
                    None => {
                        let text = match self.kind {
                            MessageKind::Frame => "Reading exact Frame".to_string(),
                            MessageKind::HandShake => "Reading exact handshake".to_string(),
                        };
                        ReadAction::Fail(AppErr::ReadErr(text))
                    },
                    Some(bytes) => ReadAction::Decode(bytes),
                }
            },
            ReadState::Finished => vstd::pervasive::unreached(),
        }
    }
}

/// The result of decoding a delivered payload: the value, or the decode
/// error of its kind when the payload was not a valid encoding.
pub fn decode_outcome<T>(kind: MessageKind, decoded: Option<T>) -> (r: Result<T, AppErr>)
    ensures
        decoded matches Some(v) ==> r == Ok::<T, AppErr>(v),
        decoded is None ==> (r matches Err(e) && e is Deserialize && e.detail()
            == decode_error_text(kind)),
{
    match decoded {
        Some(v) => Ok(v),
        None => {
            let text = match kind {
                MessageKind::Frame => "Frame decode err".to_string(),
                MessageKind::HandShake => "Handshake decode err".to_string(),
            };
            Err(AppErr::Deserialize(text))
        },
    }
}

/// The bytes to send for a value whose encoding is `encoded` (`None` when it
/// could not be encoded): the framed encoding, or the encode error of its kind.
pub fn prepare_write(kind: MessageKind, encoded: Option<Vec<u8>>) -> (r: Result<Vec<u8>, AppErr>)
    ensures
        encoded matches Some(p) ==> (r matches Ok(m) && m@ == encoded_message(p@)),
        encoded is None ==> (r matches Err(e) && e is SerializeErr && e.detail()
            == encode_error_text(kind)),
{
    match encoded {
        Some(p) => Ok(encode_message(p.as_slice())),
        None => {
            let text = match kind {
                MessageKind::Frame => "Frame serialize err".to_string(),
                MessageKind::HandShake => "Handshake serialize err".to_string(),
            };
            Err(AppErr::SerializeErr(text))
        },
    }
}

/// The result of writing a message: success, or the write error of its kind.
pub fn write_outcome(kind: MessageKind, written: bool) -> (r: Result<(), AppErr>)
    ensures
        written ==> r is Ok,
        !written ==> (r matches Err(e) && e is WriteErr && e.detail() == write_error_text(kind)),
{
    if written {
        Ok(())
    } else {
        let text = match kind {
            MessageKind::Frame => "Frame Writting Err".to_string(),
            MessageKind::HandShake => "HandShake Writting Err".to_string(),
        };
        Err(AppErr::WriteErr(text))
    }
}

/// What a reader gets back of a write: the header of a written message
/// announces the payload's length, and the bytes after it are the payload,
/// for every payload shorter than 2^32 bytes.
pub proof fn lemma_read_returns_written(payload: Seq<u8>)
    requires
        payload.len() < 0x1_0000_0000,
    ensures
        encoded_message(payload).len() == 4 + payload.len(),
        be_u32_value(encoded_message(payload).take(4)) == payload.len(),
        encoded_message(payload).skip(4) == payload,
{
    let v = length_field(payload.len());
    assert(v == payload.len());
    lemma_be_u32_roundtrip(v);
    assert(encoded_message(payload).take(4) =~= be_u32_bytes(v));
    assert(encoded_message(payload).skip(4) =~= payload);
}

/// A payload of 2^32 bytes or more is announced with its length taken modulo 2^32.
pub proof fn lemma_long_payload_length_wraps(payload: Seq<u8>)
    ensures
        be_u32_value(encoded_message(payload).take(4)) == payload.len() % 0x1_0000_0000,
{
    let v = length_field(payload.len());
    lemma_be_u32_roundtrip(v);
    assert(encoded_message(payload).take(4) =~= be_u32_bytes(v));
}

} // verus!
