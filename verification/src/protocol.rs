//! Fixed-width, ABI-independent wire protocol.
//!
//! A frame is 36 bytes: a 32-byte big-endian header followed by the FNV-1a
//! checksum of that header.

use vstd::prelude::*;
use crate::flags::{EXTENDED_E0, EXTENDED_E1};

verus! {

/// Protocol version carried in byte 4 of every frame.
pub const VERSION: u8 = 1;

/// The bytes `RIB1` that start every frame.
pub const MAGIC: [u8; 4] = [0x52, 0x49, 0x42, 0x31];

/// Length in bytes of an encoded frame.
pub const FRAME_LEN: usize = 36;

/// Highest Linux input-event key code a frame may carry.
pub const MAX_LINUX_KEY_CODE: u16 = 0x2ff;

/// The four magic bytes `RIB1` that start every frame.
pub open spec fn magic() -> Seq<u8> {
    seq![0x52u8, 0x49u8, 0x42u8, 0x31u8]
}

#[derive(Clone, Copy, Debug, PartialEq, Eq, Structural)]
pub enum MessageType {
    Hello,
    Ready,
    KeyEvent,
    ReleaseAll,
    Ping,
    Pong,
    Error,
    Goodbye,
}

#[derive(Clone, Copy, Debug, PartialEq, Eq, Structural)]
pub enum KeyState {
    /// No key state: what every control frame carries (wire value 0).
    Unset,
    Up,
    Down,
    Repeat,
}

#[derive(Clone, Copy, Debug, PartialEq, Eq, Structural)]
pub enum ProtocolError {
    BadMagic,
    UnsupportedVersion(u8),
    UnknownMessage(u8),
    InvalidKeyState(u8),
    InvalidKeyCode(u16),
    ReservedBits,
    UnexpectedPayload,
    BadChecksum,
}

/// `std::io::Error`, carried through unopened by `ReadError::Io`.
#[verifier::external_type_specification]
#[verifier::external_body]
pub struct ExIoError(std::io::Error);

/// Why reading a frame from a byte stream failed.
#[derive(Debug)]
pub enum ReadError {
    /// The stream ended or failed before 36 bytes arrived.
    Io(std::io::Error),
    /// The 36 bytes arrived but are not an acceptable frame.
    Protocol(ProtocolError),
}

/// The wire code of each message type.
pub open spec fn message_code(t: MessageType) -> u8 {
    match t {
        MessageType::Hello => 1,
        MessageType::Ready => 2,
        MessageType::KeyEvent => 3,
        MessageType::ReleaseAll => 4,
        MessageType::Ping => 5,
        MessageType::Pong => 6,
        MessageType::Error => 7,
        MessageType::Goodbye => 8,
    }
}

/// The message type a wire code names, or `UnknownMessage`.
pub open spec fn message_from_code(v: u8) -> Result<MessageType, ProtocolError> {
    if v == 1 { Ok(MessageType::Hello) }
    else if v == 2 { Ok(MessageType::Ready) }
    else if v == 3 { Ok(MessageType::KeyEvent) }
    else if v == 4 { Ok(MessageType::ReleaseAll) }
    else if v == 5 { Ok(MessageType::Ping) }
    else if v == 6 { Ok(MessageType::Pong) }
    else if v == 7 { Ok(MessageType::Error) }
    else if v == 8 { Ok(MessageType::Goodbye) }
    else { Err(ProtocolError::UnknownMessage(v)) }
}

/// The wire code of each key state.
pub open spec fn key_state_code(s: KeyState) -> u8 {
    match s {
        KeyState::Unset => 0,
        KeyState::Up => 1,
        KeyState::Down => 2,
        KeyState::Repeat => 3,
    }
}

/// The key state a wire code names, or `InvalidKeyState`.
pub open spec fn key_state_from_code(v: u8) -> Result<KeyState, ProtocolError> {
    if v == 0 { Ok(KeyState::Unset) }
    else if v == 1 { Ok(KeyState::Up) }
    else if v == 2 { Ok(KeyState::Down) }
    else if v == 3 { Ok(KeyState::Repeat) }
    else { Err(ProtocolError::InvalidKeyState(v)) }
}

impl MessageType {
    /// The byte that encodes this message type on the wire.
    pub fn code(self) -> (c: u8)
        ensures
            c == message_code(self),
    {
        match self {
            MessageType::Hello => 1,
            MessageType::Ready => 2,
            MessageType::KeyEvent => 3,
            MessageType::ReleaseAll => 4,
            MessageType::Ping => 5,
            MessageType::Pong => 6,
            MessageType::Error => 7,
            MessageType::Goodbye => 8,
        }
    }

    /// Reads a message type from its wire byte.
    pub fn from_code(value: u8) -> (r: Result<MessageType, ProtocolError>)
        ensures
            r == message_from_code(value),
    {
        match value {
            1 => Ok(MessageType::Hello),
            2 => Ok(MessageType::Ready),
            3 => Ok(MessageType::KeyEvent),
            4 => Ok(MessageType::ReleaseAll),
            5 => Ok(MessageType::Ping),
            6 => Ok(MessageType::Pong),
            7 => Ok(MessageType::Error),
            8 => Ok(MessageType::Goodbye),
            other => Err(ProtocolError::UnknownMessage(other)),
        }
    }
}

impl TryFrom<u8> for MessageType {
    type Error = ProtocolError;

    fn try_from(value: u8) -> (r: Result<MessageType, ProtocolError>) {
        MessageType::from_code(value)
    }
}

impl vstd::std_specs::convert::TryFromSpecImpl<u8> for MessageType {
    open spec fn obeys_try_from_spec() -> bool {
        true
    }

    open spec fn try_from_spec(v: u8) -> Result<MessageType, ProtocolError> {
        message_from_code(v)
    }
}

impl KeyState {
    /// The byte that encodes this key state on the wire.
    pub fn code(self) -> (c: u8)
        ensures
            c == key_state_code(self),
    {
        match self {
            KeyState::Unset => 0,
            KeyState::Up => 1,
            KeyState::Down => 2,
            KeyState::Repeat => 3,
        }
    }

    /// Reads a key state from its wire byte.
    pub fn from_code(value: u8) -> (r: Result<KeyState, ProtocolError>)
        ensures
            r == key_state_from_code(value),
    {
        match value {
            0 => Ok(KeyState::Unset),
            1 => Ok(KeyState::Up),
            2 => Ok(KeyState::Down),
            3 => Ok(KeyState::Repeat),
            other => Err(ProtocolError::InvalidKeyState(other)),
        }
    }
}

impl TryFrom<u8> for KeyState {
    type Error = ProtocolError;

    fn try_from(value: u8) -> (r: Result<KeyState, ProtocolError>) {
        KeyState::from_code(value)
    }
}

impl vstd::std_specs::convert::TryFromSpecImpl<u8> for KeyState {
    open spec fn obeys_try_from_spec() -> bool {
        true
    }

    open spec fn try_from_spec(v: u8) -> Result<KeyState, ProtocolError> {
        key_state_from_code(v)
    }
}

#[derive(Clone, Copy, Debug, PartialEq, Eq, Structural)]
pub struct Frame {
    pub message_type: MessageType,
    pub flags: u16,
    pub sequence: u64,
    pub key_code: u16,
    pub key_state: KeyState,
    pub timestamp_micros: u64,
    /// Message-specific value. HELLO uses capability bits; ERROR uses an error code.
    pub data: u32,
}

/// What `Frame::validate` answers: flags may only hold the E0/E1 bits; a key
/// event needs a key code up to `MAX_LINUX_KEY_CODE` and a key state other than
/// `None`; every other message carries no key code, key state or flags.
pub open spec fn frame_check(f: Frame) -> Result<(), ProtocolError> {
    if f.flags > 3 {
        Err(ProtocolError::ReservedBits)
    } else if f.message_type == MessageType::KeyEvent {
        if f.key_code > MAX_LINUX_KEY_CODE {
            Err(ProtocolError::InvalidKeyCode(f.key_code))
        } else if f.key_state == KeyState::Unset {
            Err(ProtocolError::InvalidKeyState(0))
        } else {
            Ok(())
        }
    } else if f.key_code != 0 || f.key_state != KeyState::Unset || f.flags != 0 {
        Err(ProtocolError::UnexpectedPayload)
    } else {
        Ok(())
    }
}

/// A frame that `Frame::validate` accepts.
pub open spec fn frame_valid(f: Frame) -> bool {
    frame_check(f) is Ok
}

impl Frame {
    /// The control frame of a message type: no key, no flags, no data.
    pub open spec fn spec_control(message_type: MessageType, sequence: u64, timestamp: u64) -> Frame {
        Frame {
            message_type,
            flags: 0,
            sequence,
            key_code: 0,
            key_state: KeyState::Unset,
            timestamp_micros: timestamp,
            data: 0,
        }
    }

    /// A control frame: no key, no flags, no data.
    pub fn control(message_type: MessageType, sequence: u64, timestamp_micros: u64) -> (f: Frame)
        ensures
            f == Frame::spec_control(message_type, sequence, timestamp_micros),
    {
        Frame {
            message_type,
            flags: 0,
            sequence,
            key_code: 0,
            key_state: KeyState::Unset,
            timestamp_micros,
            data: 0,
        }
    }

    /// A key-event frame.
    pub fn key(
        sequence: u64,
        key_code: u16,
        key_state: KeyState,
        flags: u16,
        timestamp_micros: u64,
    ) -> (f: Frame)
        ensures
            f == (Frame {
                message_type: MessageType::KeyEvent,
                flags,
                sequence,
                key_code,
                key_state,
                timestamp_micros,
                data: 0,
            }),
    {
        Frame {
            message_type: MessageType::KeyEvent,
            flags,
            sequence,
            key_code,
            key_state,
            timestamp_micros,
            data: 0,
        }
    }

    /// Checks the field constraints that every frame on the wire must meet.
    pub fn validate(&self) -> (r: Result<(), ProtocolError>)
        ensures
            r == frame_check(*self),
    {
        let reserved = self.flags & !(EXTENDED_E0 | EXTENDED_E1);
        proof {
            let x = self.flags;
            assert((x & !(1u16 | 2u16) != 0) == (x > 3)) by (bit_vector);
        }
        if reserved != 0 {
            return Err(ProtocolError::ReservedBits);
        }
        if self.message_type == MessageType::KeyEvent {
            if self.key_code > MAX_LINUX_KEY_CODE {
                return Err(ProtocolError::InvalidKeyCode(self.key_code));
            }
            if self.key_state == KeyState::Unset {
                return Err(ProtocolError::InvalidKeyState(0));
            }
        } else if self.key_code != 0 || self.key_state != KeyState::Unset || self.flags != 0 {
            return Err(ProtocolError::UnexpectedPayload);
        }
        Ok(())
    }
}

/// The FNV-1a offset basis.
pub const FNV_OFFSET: u32 = 0x811c9dc5;

/// The FNV-1a prime.
pub const FNV_PRIME: u32 = 0x01000193;

/// One FNV-1a step: xor the byte in, then multiply by the prime modulo 2^32.
pub open spec fn fnv1a_step(h: u32, b: u8) -> u32 {
    vstd::wrapping::u32_specs::wrapping_mul(h ^ (b as u32), FNV_PRIME)
}

/// The 32-bit FNV-1a hash of a byte sequence.
pub open spec fn fnv1a(s: Seq<u8>) -> u32
    decreases s.len(),
{
    if s.len() == 0 {
        FNV_OFFSET
    } else {
        fnv1a_step(fnv1a(s.drop_last()), s.last())
    }
}

/// Big-endian bytes of a `u16`.
pub open spec fn be16(v: u16) -> Seq<u8> {
    seq![(v >> 8u16) as u8, v as u8]
}

/// Big-endian bytes of a `u32`.
pub open spec fn be32(v: u32) -> Seq<u8> {
    seq![(v >> 24u32) as u8, (v >> 16u32) as u8, (v >> 8u32) as u8, v as u8]
}

/// Big-endian bytes of a `u64`.
pub open spec fn be64(v: u64) -> Seq<u8> {
    seq![
        (v >> 56u64) as u8, (v >> 48u64) as u8, (v >> 40u64) as u8, (v >> 32u64) as u8,
        (v >> 24u64) as u8, (v >> 16u64) as u8, (v >> 8u64) as u8, v as u8,
    ]
}

/// The big-endian `u16` at `s[i..i + 2]`.
pub open spec fn read_be16(s: Seq<u8>, i: int) -> u16 {
    ((s[i] as u16) << 8u16) | (s[i + 1] as u16)
}

/// The big-endian `u32` at `s[i..i + 4]`.
pub open spec fn read_be32(s: Seq<u8>, i: int) -> u32 {
    ((s[i] as u32) << 24u32) | ((s[i + 1] as u32) << 16u32) | ((s[i + 2] as u32) << 8u32)
        | (s[i + 3] as u32)
}

/// The big-endian `u64` at `s[i..i + 8]`.
pub open spec fn read_be64(s: Seq<u8>, i: int) -> u64 {
    ((s[i] as u64) << 56u64) | ((s[i + 1] as u64) << 48u64) | ((s[i + 2] as u64) << 40u64)
        | ((s[i + 3] as u64) << 32u64) | ((s[i + 4] as u64) << 24u64) | ((s[i + 5] as u64)
        << 16u64) | ((s[i + 6] as u64) << 8u64) | (s[i + 7] as u64)
}

/// The 32-byte header of a frame: magic, version, message type, flags,
/// sequence, key code, key state, a reserved zero byte, timestamp and data.
pub open spec fn header_bytes(f: Frame) -> Seq<u8> {
    magic() + seq![VERSION, message_code(f.message_type)] + be16(f.flags) + be64(f.sequence)
        + be16(f.key_code) + seq![key_state_code(f.key_state), 0u8] + be64(f.timestamp_micros)
        + be32(f.data)
}

/// The 36 bytes of an encoded frame: the header and its checksum.
pub open spec fn encoding(f: Frame) -> Seq<u8> {
    header_bytes(f) + be32(fnv1a(header_bytes(f)))
}

/// Whether the first four bytes are the magic.
pub open spec fn has_magic(b: Seq<u8>) -> bool {
    b[0] == 0x52 && b[1] == 0x49 && b[2] == 0x42 && b[3] == 0x31
}

/// The frame whose fields sit in `b`, given its message type and key state.
pub open spec fn fields_of(b: Seq<u8>, t: MessageType, k: KeyState) -> Frame {
    Frame {
        message_type: t,
        flags: read_be16(b, 6),
        sequence: read_be64(b, 8),
        key_code: read_be16(b, 16),
        key_state: k,
        timestamp_micros: read_be64(b, 20),
        data: read_be32(b, 28),
    }
}

/// What `Frame::decode` answers for 36 bytes, checks in order: magic,
/// version, reserved byte 19, checksum, message type, key state, then the
/// field constraints of `frame_check`.
pub open spec fn decoding(b: Seq<u8>) -> Result<Frame, ProtocolError> {
    if !has_magic(b) {
        Err(ProtocolError::BadMagic)
    } else if b[4] != VERSION {
        Err(ProtocolError::UnsupportedVersion(b[4]))
    } else if b[19] != 0 {
        Err(ProtocolError::ReservedBits)
    } else if fnv1a(b.subrange(0, 32)) != read_be32(b, 32) {
        Err(ProtocolError::BadChecksum)
    } else {
        match message_from_code(b[5]) {
            Err(e) => Err(e),
            Ok(t) => match key_state_from_code(b[18]) {
                Err(e) => Err(e),
                Ok(k) => match frame_check(fields_of(b, t, k)) {
                    Err(e) => Err(e),
                    Ok(_) => Ok(fields_of(b, t, k)),
                },
            },
        }
    }
}

/// FNV-1a over a byte slice.
fn fnv1a32(bytes: &[u8]) -> (h: u32)
    ensures
        h == fnv1a(bytes@),
{
    let mut hash: u32 = FNV_OFFSET;
    let n = bytes.len();
    let mut i: usize = 0;
    while i < n
        invariant
            n == bytes@.len(),
            i <= n,
            hash == fnv1a(bytes@.take(i as int)),
        decreases n - i,
    {
        assert(bytes@.take(i + 1).drop_last() =~= bytes@.take(i as int));
        hash = (hash ^ (bytes[i] as u32)).wrapping_mul(FNV_PRIME);
        i = i + 1;
    }
    assert(bytes@.take(n as int) =~= bytes@);
    hash
}

fn get_be16(b: &[u8; FRAME_LEN], i: usize) -> (v: u16)
    requires
        i + 2 <= FRAME_LEN,
    ensures
        v == read_be16(b@, i as int),
{
    ((b[i] as u16) << 8u16) | (b[i + 1] as u16)
}

fn get_be32(b: &[u8; FRAME_LEN], i: usize) -> (v: u32)
    requires
        i + 4 <= FRAME_LEN,
    ensures
        v == read_be32(b@, i as int),
{
    ((b[i] as u32) << 24u32) | ((b[i + 1] as u32) << 16u32) | ((b[i + 2] as u32) << 8u32)
        | (b[i + 3] as u32)
}

fn get_be64(b: &[u8; FRAME_LEN], i: usize) -> (v: u64)
    requires
        i + 8 <= FRAME_LEN,
    ensures
        v == read_be64(b@, i as int),
{
    ((b[i] as u64) << 56u64) | ((b[i + 1] as u64) << 48u64) | ((b[i + 2] as u64) << 40u64)
        | ((b[i + 3] as u64) << 32u64) | ((b[i + 4] as u64) << 24u64) | ((b[i + 5] as u64)
        << 16u64) | ((b[i + 6] as u64) << 8u64) | (b[i + 7] as u64)
}

impl Frame {
    /// Encodes the frame into its 36 wire bytes.
    pub fn encode(&self) -> (out: [u8; FRAME_LEN])
        ensures
            out@ == encoding(*self),
    {
        let mut out = [0u8; FRAME_LEN];
        out[0] = 0x52;
        out[1] = 0x49;
        out[2] = 0x42;
        out[3] = 0x31;
        out[4] = VERSION;
        out[5] = self.message_type.code();
        out[6] = (self.flags >> 8u16) as u8;
        out[7] = self.flags as u8;
        let s = self.sequence;
        out[8] = (s >> 56u64) as u8;
        out[9] = (s >> 48u64) as u8;
        out[10] = (s >> 40u64) as u8;
        out[11] = (s >> 32u64) as u8;
        out[12] = (s >> 24u64) as u8;
        out[13] = (s >> 16u64) as u8;
        out[14] = (s >> 8u64) as u8;
        out[15] = s as u8;
        out[16] = (self.key_code >> 8u16) as u8;
        out[17] = self.key_code as u8;
        out[18] = self.key_state.code();
        let t = self.timestamp_micros;
        out[20] = (t >> 56u64) as u8;
        out[21] = (t >> 48u64) as u8;
        out[22] = (t >> 40u64) as u8;
        out[23] = (t >> 32u64) as u8;
        out[24] = (t >> 24u64) as u8;
        out[25] = (t >> 16u64) as u8;
        out[26] = (t >> 8u64) as u8;
        out[27] = t as u8;
        let d = self.data;
        out[28] = (d >> 24u32) as u8;
        out[29] = (d >> 16u32) as u8;
        out[30] = (d >> 8u32) as u8;
        out[31] = d as u8;
        assert(out@.subrange(0, 32) =~= header_bytes(*self));
        let checksum = fnv1a32(&out[0..32]);
        out[32] = (checksum >> 24u32) as u8;
        out[33] = (checksum >> 16u32) as u8;
        out[34] = (checksum >> 8u32) as u8;
        out[35] = checksum as u8;
        assert(out@ =~= encoding(*self));
        out
    }

    /// Finishes reading a frame once the attempt to read its 36 bytes is over:
    /// a failed read is passed on as `ReadError::Io`, and the bytes of a
    /// successful one are decoded.
    pub fn from_read(read: Result<[u8; FRAME_LEN], std::io::Error>) -> (r: Result<Frame, ReadError>)
        ensures
            match read {
                Err(e) => r == Err::<Frame, ReadError>(ReadError::Io(e)),
                Ok(b) => match decoding(b@) {
                    Ok(f) => r == Ok::<Frame, ReadError>(f),
                    Err(e) => r == Err::<Frame, ReadError>(ReadError::Protocol(e)),
                },
            },
    {
        match read {
            Err(e) => Err(ReadError::Io(e)),
            Ok(bytes) => match Frame::decode(&bytes) {
                Ok(f) => Ok(f),
                Err(e) => Err(ReadError::Protocol(e)),
            },
        }
    }

    /// Decodes 36 wire bytes, rejecting any frame that fails a check.
    pub fn decode(bytes: &[u8; FRAME_LEN]) -> (r: Result<Frame, ProtocolError>)
        ensures
            r == decoding(bytes@),
            r matches Ok(f) ==> frame_valid(f),
    {
        if !(bytes[0] == 0x52 && bytes[1] == 0x49 && bytes[2] == 0x42 && bytes[3] == 0x31) {
            return Err(ProtocolError::BadMagic);
        }
        if bytes[4] != VERSION {
            return Err(ProtocolError::UnsupportedVersion(bytes[4]));
        }
        if bytes[19] != 0 {
            return Err(ProtocolError::ReservedBits);
        }
        let expected = get_be32(bytes, 32);
        if fnv1a32(&bytes[0..32]) != expected {
            return Err(ProtocolError::BadChecksum);
        }
        let message_type = match MessageType::from_code(bytes[5]) {
            Ok(t) => t,
            Err(e) => return Err(e),
        };
        let key_state = match KeyState::from_code(bytes[18]) {
            Ok(k) => k,
            Err(e) => return Err(e),
        };
        let frame = Frame {
            message_type,
            flags: get_be16(bytes, 6),
            sequence: get_be64(bytes, 8),
            key_code: get_be16(bytes, 16),
            key_state,
            timestamp_micros: get_be64(bytes, 20),
            data: get_be32(bytes, 28),
        };
        match frame.validate() {
            Ok(()) => Ok(frame),
            Err(e) => Err(e),
        }
    }
}

proof fn lemma_be16_roundtrip(v: u16)
    ensures
        ((((v >> 8u16) as u8) as u16) << 8u16) | (((v as u8) as u16)) == v,
{
    assert(((((v >> 8u16) as u8) as u16) << 8u16) | (((v as u8) as u16)) == v) by (bit_vector);
}

proof fn lemma_be32_roundtrip(v: u32)
    ensures
        ((((v >> 24u32) as u8) as u32) << 24u32) | ((((v >> 16u32) as u8) as u32) << 16u32) | ((((
        v >> 8u32) as u8) as u32) << 8u32) | ((v as u8) as u32) == v,
{
    assert(((((v >> 24u32) as u8) as u32) << 24u32) | ((((v >> 16u32) as u8) as u32) << 16u32)
        | ((((v >> 8u32) as u8) as u32) << 8u32) | ((v as u8) as u32) == v) by (bit_vector);
}

proof fn lemma_be64_roundtrip(v: u64)
    ensures
        ((((v >> 56u64) as u8) as u64) << 56u64) | ((((v >> 48u64) as u8) as u64) << 48u64) | ((((
        v >> 40u64) as u8) as u64) << 40u64) | ((((v >> 32u64) as u8) as u64) << 32u64) | ((((v
        >> 24u64) as u8) as u64) << 24u64) | ((((v >> 16u64) as u8) as u64) << 16u64) | ((((v
        >> 8u64) as u8) as u64) << 8u64) | ((v as u8) as u64) == v,
{
    assert(((((v >> 56u64) as u8) as u64) << 56u64) | ((((v >> 48u64) as u8) as u64) << 48u64)
        | ((((v >> 40u64) as u8) as u64) << 40u64) | ((((v >> 32u64) as u8) as u64) << 32u64)
        | ((((v >> 24u64) as u8) as u64) << 24u64) | ((((v >> 16u64) as u8) as u64) << 16u64)
        | ((((v >> 8u64) as u8) as u64) << 8u64) | ((v as u8) as u64) == v) by (bit_vector);
}

proof fn lemma_be16_bytes(b0: u8, b1: u8)
    ensures
        ({
            let v = ((b0 as u16) << 8u16) | (b1 as u16);
            (v >> 8u16) as u8 == b0 && v as u8 == b1
        }),
{
    assert(({
        let v = ((b0 as u16) << 8u16) | (b1 as u16);
        (v >> 8u16) as u8 == b0 && v as u8 == b1
    })) by (bit_vector);
}

proof fn lemma_be32_bytes(b0: u8, b1: u8, b2: u8, b3: u8)
    ensures
        ({
            let v = ((b0 as u32) << 24u32) | ((b1 as u32) << 16u32) | ((b2 as u32) << 8u32) | (
            b3 as u32);
            (v >> 24u32) as u8 == b0 && (v >> 16u32) as u8 == b1 && (v >> 8u32) as u8 == b2 && v
                as u8 == b3
        }),
{
    assert(({
        let v = ((b0 as u32) << 24u32) | ((b1 as u32) << 16u32) | ((b2 as u32) << 8u32) | (
        b3 as u32);
        (v >> 24u32) as u8 == b0 && (v >> 16u32) as u8 == b1 && (v >> 8u32) as u8 == b2 && v as u8
            == b3
    })) by (bit_vector);
}

proof fn lemma_be64_bytes(b0: u8, b1: u8, b2: u8, b3: u8, b4: u8, b5: u8, b6: u8, b7: u8)
    ensures
        ({
            let v = ((b0 as u64) << 56u64) | ((b1 as u64) << 48u64) | ((b2 as u64) << 40u64) | ((
            b3 as u64) << 32u64) | ((b4 as u64) << 24u64) | ((b5 as u64) << 16u64) | ((b6 as u64)
                << 8u64) | (b7 as u64);
            (v >> 56u64) as u8 == b0 && (v >> 48u64) as u8 == b1 && (v >> 40u64) as u8 == b2 && (v
                >> 32u64) as u8 == b3 && (v >> 24u64) as u8 == b4 && (v >> 16u64) as u8 == b5 && (v
                >> 8u64) as u8 == b6 && v as u8 == b7
        }),
{
    assert(({
        let v = ((b0 as u64) << 56u64) | ((b1 as u64) << 48u64) | ((b2 as u64) << 40u64) | ((
        b3 as u64) << 32u64) | ((b4 as u64) << 24u64) | ((b5 as u64) << 16u64) | ((b6 as u64)
            << 8u64) | (b7 as u64);
        (v >> 56u64) as u8 == b0 && (v >> 48u64) as u8 == b1 && (v >> 40u64) as u8 == b2 && (v
            >> 32u64) as u8 == b3 && (v >> 24u64) as u8 == b4 && (v >> 16u64) as u8 == b5 && (v
            >> 8u64) as u8 == b6 && v as u8 == b7
    })) by (bit_vector);
}

/// Decoding what `encode` produced gives back the frame when it is valid, and
/// otherwise the error that `validate` reports for it.
pub proof fn lemma_decode_encode(f: Frame)
    ensures
        decoding(encoding(f)) == (match frame_check(f) {
            Ok(_) => Ok(f),
            Err(e) => Err::<Frame, ProtocolError>(e),
        }),
{
    let h = header_bytes(f);
    let b = encoding(f);
    assert(b.subrange(0, 32) =~= h);
    lemma_be16_roundtrip(f.flags);
    lemma_be16_roundtrip(f.key_code);
    lemma_be32_roundtrip(f.data);
    lemma_be32_roundtrip(fnv1a(h));
    lemma_be64_roundtrip(f.sequence);
    lemma_be64_roundtrip(f.timestamp_micros);
    assert(fields_of(b, f.message_type, f.key_state) == f);
}

/// Every 36 bytes that decode to a frame are exactly that frame's encoding:
/// a byte string has at most one accepted reading, and re-encoding it changes
/// nothing.
pub proof fn lemma_encode_decode(b: Seq<u8>)
    requires
        b.len() == FRAME_LEN,
        decoding(b) is Ok,
    ensures
        encoding(decoding(b)->Ok_0) == b,
{
    let f = decoding(b)->Ok_0;
    lemma_be16_bytes(b[6], b[7]);
    lemma_be16_bytes(b[16], b[17]);
    lemma_be32_bytes(b[28], b[29], b[30], b[31]);
    lemma_be32_bytes(b[32], b[33], b[34], b[35]);
    lemma_be64_bytes(b[8], b[9], b[10], b[11], b[12], b[13], b[14], b[15]);
    lemma_be64_bytes(b[20], b[21], b[22], b[23], b[24], b[25], b[26], b[27]);
    assert(message_code(f.message_type) == b[5]);
    assert(key_state_code(f.key_state) == b[18]);
    assert(header_bytes(f) =~= b.subrange(0, 32));
    assert(encoding(f) =~= b);
}

/// Multiplying by the FNV prime modulo 2^32 loses nothing: the prime is odd,
/// so `0x359c449b` undoes it.
proof fn lemma_fnv_prime_injective(a: u32, c: u32)
    requires
        vstd::wrapping::u32_specs::wrapping_mul(a, FNV_PRIME) == vstd::wrapping::u32_specs::wrapping_mul(
            c,
            FNV_PRIME,
        ),
    ensures
        a == c,
{
    let x = a as u64;
    let y = c as u64;
    assert((x * 0x01000193) % 0x100000000 * 0x359c449b % 0x100000000 == x)
        by (bit_vector)
        requires
            x < 0x100000000u64,
    ;
    assert((y * 0x01000193) % 0x100000000 * 0x359c449b % 0x100000000 == y)
        by (bit_vector)
        requires
            y < 0x100000000u64,
    ;
    assert(x * 0x01000193 == a as nat * FNV_PRIME as nat);
    assert(y * 0x01000193 == c as nat * FNV_PRIME as nat);
}

/// One FNV step with a fixed byte is one-to-one in the running hash.
proof fn lemma_fnv_step_state_injective(h1: u32, h2: u32, b: u8)
    requires
        fnv1a_step(h1, b) == fnv1a_step(h2, b),
    ensures
        h1 == h2,
{
    lemma_fnv_prime_injective(h1 ^ (b as u32), h2 ^ (b as u32));
    assert((h1 ^ (b as u32)) == (h2 ^ (b as u32)) ==> h1 == h2) by (bit_vector);
}

/// One FNV step from a fixed hash is one-to-one in the byte.
proof fn lemma_fnv_step_byte_injective(h: u32, x: u8, y: u8)
    requires
        fnv1a_step(h, x) == fnv1a_step(h, y),
    ensures
        x == y,
{
    lemma_fnv_prime_injective(h ^ (x as u32), h ^ (y as u32));
    assert((h ^ (x as u32)) == (h ^ (y as u32)) ==> x == y) by (bit_vector);
}

/// Changing a single byte always changes the FNV-1a hash.
pub proof fn lemma_fnv1a_detects_one_byte(s: Seq<u8>, i: int, x: u8)
    requires
        0 <= i < s.len(),
        x != s[i],
    ensures
        fnv1a(s.update(i, x)) != fnv1a(s),
    decreases s.len(),
{
    let t = s.update(i, x);
    if i == s.len() - 1 {
        assert(t.drop_last() =~= s.drop_last());
        if fnv1a(t) == fnv1a(s) {
            lemma_fnv_step_byte_injective(fnv1a(s.drop_last()), x, s[i]);
        }
    } else {
        assert(t.drop_last() =~= s.drop_last().update(i, x));
        lemma_fnv1a_detects_one_byte(s.drop_last(), i, x);
        if fnv1a(t) == fnv1a(s) {
            lemma_fnv_step_state_injective(fnv1a(t.drop_last()), fnv1a(s.drop_last()), s.last());
        }
    }
}

/// The error that decoding reports when byte `i` of an encoded frame is
/// replaced by `x`, a value other than the one that was there.
pub open spec fn corruption_error(i: int, x: u8) -> ProtocolError {
    if i < 4 {
        ProtocolError::BadMagic
    } else if i == 4 {
        ProtocolError::UnsupportedVersion(x)
    } else if i == 19 {
        ProtocolError::ReservedBits
    } else {
        ProtocolError::BadChecksum
    }
}

/// Any single corrupted byte in an encoded frame is rejected: a damaged magic,
/// version or reserved byte is named as such, and every other damaged byte
/// (header or checksum) fails the checksum.
pub proof fn lemma_corruption_rejected(f: Frame, i: int, x: u8)
    requires
        0 <= i < FRAME_LEN,
        x != encoding(f)[i],
    ensures
        decoding(encoding(f).update(i, x)) == Err::<Frame, ProtocolError>(corruption_error(i, x)),
{
    let h = header_bytes(f);
    let b = encoding(f);
    let c = b.update(i, x);
    assert(b.subrange(0, 32) =~= h);
    lemma_be32_roundtrip(fnv1a(h));
    if i < 4 || i == 4 || i == 19 {
    } else if i < 32 {
        assert(c.subrange(0, 32) =~= h.update(i, x));
        lemma_fnv1a_detects_one_byte(h, i, x);
        assert(read_be32(c, 32) == read_be32(b, 32));
    } else {
        assert(c.subrange(0, 32) =~= h);
        lemma_be32_bytes(c[32], c[33], c[34], c[35]);
    }
}

} // verus!
