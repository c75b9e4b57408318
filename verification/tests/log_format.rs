use mlog::{Error, Header, LogIndex};

const SAMPLE: [u8; 32] = [
    0x4d, 0x4c, 0x4f, 0x47, 0x00, 0x00, 0x00, 0x01, 0x00, 0x00, 0x00, 0x00, 0x00, 0x00, 0x00,
    0x10, 0x00, 0x00, 0x00, 0x00, 0x00, 0x00, 0x00, 0x20, 0x00, 0x00, 0x00, 0x00, 0x00, 0x00,
    0x00, 0x30,
];

#[test]
fn test_read() {
    let bytes = [
        0x4du8, 0x4c, 0x4f, 0x47, 0x00, 0x00, 0x00, 0x01, 0x02, 0x00, 0x00, 0x00, 0x00, 0x00,
        0x00, 0x10, 0x00, 0x00, 0x00, 0x00, 0x00, 0x00, 0x00, 0x20, 0x00, 0x00, 0x00, 0x00,
        0x00, 0x00, 0x00, 0x30,
    ];

    let start = LogIndex {
        idx: 32,
        len: 144115188075855888,
    };
    let end = LogIndex {
        idx: 48,
        len: 144115188075855888,
    };
    let expected = Header {
        len: 144115188075855888,
        start,
        end,
    };

    let header = Header::parse(&bytes).unwrap();
    assert_eq!(expected, header);
}

#[test]
fn parses_literal_header() {
    let header = Header::parse(&SAMPLE).unwrap();
    assert_eq!(header.len, 16);
    assert_eq!(header.start.logical(), 32);
    assert_eq!(header.end.logical(), 48);
    assert_eq!(header.start.len, 16);
    assert_eq!(header.end.len, 16);
    assert_eq!(header.start.physical(), 0);
}

#[test]
fn writes_exact_bytes() {
    let header = Header {
        len: 16,
        start: LogIndex { idx: 32, len: 16 },
        end: LogIndex { idx: 48, len: 16 },
    };
    assert_eq!(header.to_bytes(), SAMPLE.to_vec());
}

#[test]
fn round_trip() {
    let header = Header {
        len: 1000,
        start: LogIndex { idx: 123456789, len: 1000 },
        end: LogIndex { idx: 987654321012345678, len: 1000 },
    };
    let bytes = header.to_bytes();
    let parsed = Header::parse(&bytes).unwrap();
    assert_eq!(header, parsed);
    assert_eq!(parsed.start.len, header.len);
    assert_eq!(parsed.end.len, header.len);
}

#[test]
fn rejects_wrong_magic() {
    for first in [0x00u8, 0x4c, 0xff] {
        let mut bytes = SAMPLE;
        bytes[0] = first;
        assert_eq!(Header::parse(&bytes), Err(Error::InvalidMagic));
    }
}

#[test]
fn rejects_wrong_version() {
    let mut bytes = SAMPLE;
    bytes[7] = 0x02;
    assert_eq!(Header::parse(&bytes), Err(Error::InvalidVersion));
}

#[test]
fn rejects_truncated_source() {
    for keep in [0usize, 3, 7, 15, 27, 31] {
        assert_eq!(Header::parse(&SAMPLE[..keep]), Err(Error::ReadHeader));
    }
}

#[test]
fn field_codec_round_trips() {
    let mut out: Vec<u8> = Vec::new();
    mlog::codec::push_be_u32(&mut out, 0xdeadbeef);
    mlog::codec::push_be_u64(&mut out, 144115188075855888);
    assert_eq!(out, vec![0xde, 0xad, 0xbe, 0xef, 0x02, 0x00, 0x00, 0x00, 0x00, 0x00, 0x00, 0x10]);
    assert_eq!(mlog::codec::be_u32_at(&out, 0), 0xdeadbeef);
    assert_eq!(mlog::codec::be_u64_at(&out, 4), 144115188075855888);
}
