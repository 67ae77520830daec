use key_tunnel::flags;
use key_tunnel::protocol::{
    Frame, KeyState, MessageType, ProtocolError, ReadError, FRAME_LEN, MAGIC, MAX_LINUX_KEY_CODE,
    VERSION,
};
use std::io::{self, Read};

#[test]
fn golden_key_frame_is_stable() {
    let frame = Frame::key(
        0x0102030405060708,
        28,
        KeyState::Down,
        flags::EXTENDED_E0,
        99,
    );
    let bytes = frame.encode();
    assert_eq!(bytes.len(), FRAME_LEN);
    assert_eq!(Frame::decode(&bytes).unwrap(), frame);
    assert_eq!(
        &bytes[..20],
        &[82, 73, 66, 49, 1, 3, 0, 1, 1, 2, 3, 4, 5, 6, 7, 8, 0, 28, 2, 0]
    );
}

struct Chunks {
    data: Vec<u8>,
    at: usize,
}

impl Read for Chunks {
    fn read(&mut self, out: &mut [u8]) -> io::Result<usize> {
        if self.at == self.data.len() {
            return Ok(0);
        }
        let n = out.len().min(3).min(self.data.len() - self.at);
        out[..n].copy_from_slice(&self.data[self.at..self.at + n]);
        self.at += n;
        Ok(n)
    }
}

fn read_frame(mut reader: impl Read) -> Result<Frame, ReadError> {
    let mut buf = [0u8; FRAME_LEN];
    Frame::from_read(reader.read_exact(&mut buf).map(|()| buf))
}

#[test]
fn partial_reads_are_supported() {
    let expected = Frame::control(MessageType::Hello, 1, 2);
    let got = read_frame(Chunks {
        data: expected.encode().to_vec(),
        at: 0,
    })
    .unwrap();
    assert_eq!(got, expected);
}

#[test]
fn corruption_is_rejected() {
    let mut bytes = Frame::control(MessageType::Ping, 1, 2).encode();
    bytes[12] ^= 1;
    assert_eq!(Frame::decode(&bytes), Err(ProtocolError::BadChecksum));
}

#[test]
fn truncated_stream_is_an_io_error() {
    let full = Frame::control(MessageType::Hello, 1, 2).encode();
    let got = read_frame(Chunks {
        data: full[..20].to_vec(),
        at: 0,
    });
    match got {
        Err(ReadError::Io(e)) => assert_eq!(e.kind(), io::ErrorKind::UnexpectedEof),
        other => panic!("expected an I/O error, got {other:?}"),
    }
}

#[test]
fn bad_bytes_are_a_protocol_error() {
    let mut bytes = Frame::control(MessageType::Hello, 1, 2).encode();
    bytes[0] = 0;
    match read_frame(Chunks {
        data: bytes.to_vec(),
        at: 0,
    }) {
        Err(ReadError::Protocol(ProtocolError::BadMagic)) => {}
        other => panic!("expected BadMagic, got {other:?}"),
    }
}

#[test]
fn full_encoding_of_a_control_frame() {
    let mut frame = Frame::control(MessageType::Ready, 0x1122334455667788, 0x99aabbccddeeff00);
    frame.data = 0xdeadbeef;
    let bytes = frame.encode();
    let header: [u8; 32] = [
        0x52, 0x49, 0x42, 0x31, 1, 2, 0, 0, 0x11, 0x22, 0x33, 0x44, 0x55, 0x66, 0x77, 0x88, 0, 0,
        0, 0, 0x99, 0xaa, 0xbb, 0xcc, 0xdd, 0xee, 0xff, 0x00, 0xde, 0xad, 0xbe, 0xef,
    ];
    assert_eq!(&bytes[..32], &header);
    let checksum = header.iter().fold(0x811c9dc5u32, |h, b| {
        (h ^ u32::from(*b)).wrapping_mul(0x01000193)
    });
    assert_eq!(&bytes[32..], &checksum.to_be_bytes());
    assert_eq!(Frame::decode(&bytes), Ok(frame));
}

#[test]
fn checksum_of_empty_header_prefix_is_offset_basis() {
    // FNV-1a of "a" is a published test vector: 0xe40c292c.
    let mut frame = Frame::control(MessageType::Hello, 0, 0);
    frame.data = 0;
    let bytes = frame.encode();
    let fnv = |data: &[u8]| {
        data.iter()
            .fold(0x811c9dc5u32, |h, b| (h ^ u32::from(*b)).wrapping_mul(0x01000193))
    };
    assert_eq!(fnv(b"a"), 0xe40c292c);
    assert_eq!(u32::from_be_bytes(bytes[32..36].try_into().unwrap()), fnv(&bytes[..32]));
}

#[test]
fn every_single_byte_corruption_is_rejected() {
    let frame = Frame::key(7, 30, KeyState::Up, 0, 123456);
    let good = frame.encode();
    for i in 0..FRAME_LEN {
        for x in [0u8, 1, 0x7f, 0x80, 0xff] {
            if x == good[i] {
                continue;
            }
            let mut bad = good;
            bad[i] = x;
            let expected = if i < 4 {
                ProtocolError::BadMagic
            } else if i == 4 {
                ProtocolError::UnsupportedVersion(x)
            } else if i == 19 {
                ProtocolError::ReservedBits
            } else {
                ProtocolError::BadChecksum
            };
            assert_eq!(Frame::decode(&bad), Err(expected), "byte {i} set to {x}");
        }
    }
}

fn with_checksum(mut bytes: [u8; FRAME_LEN]) -> [u8; FRAME_LEN] {
    let checksum = bytes[..32]
        .iter()
        .fold(0x811c9dc5u32, |h, b| (h ^ u32::from(*b)).wrapping_mul(0x01000193));
    bytes[32..].copy_from_slice(&checksum.to_be_bytes());
    bytes
}

#[test]
fn decode_reports_each_field_error() {
    let base = Frame::control(MessageType::Ping, 1, 2).encode();

    let mut b = base;
    b[5] = 9;
    assert_eq!(Frame::decode(&with_checksum(b)), Err(ProtocolError::UnknownMessage(9)));

    let mut b = base;
    b[18] = 4;
    assert_eq!(Frame::decode(&with_checksum(b)), Err(ProtocolError::InvalidKeyState(4)));

    let mut b = base;
    b[7] = 4;
    assert_eq!(Frame::decode(&with_checksum(b)), Err(ProtocolError::ReservedBits));

    let mut b = base;
    b[17] = 1;
    assert_eq!(Frame::decode(&with_checksum(b)), Err(ProtocolError::UnexpectedPayload));

    let mut b = Frame::key(1, 1, KeyState::Down, 0, 0).encode();
    b[16] = 0x03;
    b[17] = 0x00;
    assert_eq!(Frame::decode(&with_checksum(b)), Err(ProtocolError::InvalidKeyCode(0x300)));

    let mut b = Frame::key(1, 1, KeyState::Down, 0, 0).encode();
    b[18] = 0;
    assert_eq!(Frame::decode(&with_checksum(b)), Err(ProtocolError::InvalidKeyState(0)));

    let mut b = base;
    b[4] = 2;
    assert_eq!(Frame::decode(&b), Err(ProtocolError::UnsupportedVersion(2)));

    let mut b = base;
    b[19] = 1;
    assert_eq!(Frame::decode(&b), Err(ProtocolError::ReservedBits));
}

#[test]
fn validate_rules() {
    assert_eq!(Frame::key(1, MAX_LINUX_KEY_CODE, KeyState::Repeat, 3, 0).validate(), Ok(()));
    assert_eq!(
        Frame::key(1, MAX_LINUX_KEY_CODE + 1, KeyState::Down, 0, 0).validate(),
        Err(ProtocolError::InvalidKeyCode(0x300))
    );
    assert_eq!(
        Frame::key(1, 1, KeyState::Unset, 0, 0).validate(),
        Err(ProtocolError::InvalidKeyState(0))
    );
    assert_eq!(
        Frame::key(1, 1, KeyState::Down, 4, 0).validate(),
        Err(ProtocolError::ReservedBits)
    );
    let mut f = Frame::control(MessageType::Hello, 1, 0);
    assert_eq!(f.validate(), Ok(()));
    f.flags = 1;
    assert_eq!(f.validate(), Err(ProtocolError::UnexpectedPayload));
    f.flags = 0;
    f.key_state = KeyState::Up;
    assert_eq!(f.validate(), Err(ProtocolError::UnexpectedPayload));
}

#[test]
fn invalid_frames_do_not_roundtrip() {
    let f = Frame::key(1, 1, KeyState::Unset, 0, 0);
    assert_eq!(Frame::decode(&f.encode()), Err(ProtocolError::InvalidKeyState(0)));
}

#[test]
fn wire_codes() {
    assert_eq!(MessageType::try_from(1), Ok(MessageType::Hello));
    assert_eq!(MessageType::try_from(8), Ok(MessageType::Goodbye));
    assert_eq!(MessageType::try_from(0), Err(ProtocolError::UnknownMessage(0)));
    assert_eq!(KeyState::try_from(3), Ok(KeyState::Repeat));
    assert_eq!(KeyState::try_from(4), Err(ProtocolError::InvalidKeyState(4)));
    assert_eq!(MessageType::Error.code(), 7);
    assert_eq!(KeyState::Unset.code(), 0);
    assert_eq!(VERSION, 1);
}

#[test]
fn magic_bytes() {
    assert_eq!(&MAGIC, b"RIB1");
    assert_eq!(&Frame::control(MessageType::Goodbye, 0, 0).encode()[..4], &MAGIC);
}
