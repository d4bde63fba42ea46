use dual_digest::{reader_to_hashes, DigestAccumulator, PipelineError, Sha1Reader};
use std::io::Write;

const SHA1_EMPTY: &str = "da39a3ee5e6b4b0d3255bfef95601890afd80709";

// A minimal frame wrapping the two-byte payload "00".
const TINY_FRAME: [u8; 21] = [
    0x04, 0x22, 0x4d, 0x18, 0x64, 0x40, 0xa7, 0x02, 0x00, 0x00, 0x80, 0x30, 0x30, 0x00, 0x00,
    0x00, 0x00, 0xfb, 0x97, 0x0f, 0xa1,
];

fn compress(plain: &[u8]) -> Vec<u8> {
    let mut enc = lz4_flex::frame::FrameEncoder::new(Vec::new());
    enc.write_all(plain).unwrap();
    enc.finish().unwrap()
}

fn sha1_hex(bytes: &[u8]) -> String {
    let mut acc = DigestAccumulator::new();
    acc.update(bytes);
    acc.to_hex_string()
}

#[test]
fn t1() {
    assert_eq!(
        "5e2ecff46cf39bfa09c9f1f40c8fe6636fb97359,fb96549631c835eb239cd614cc6b5cb7d295121a",
        reader_to_hashes(
            &[
                0x04, 0x22, 0x4d, 0x18, 0x64, 0x40, 0xa7, 0x02, 0x00, 0x00, 0x80, 0x30, 0x30,
                0x00, 0x00, 0x00, 0x00, 0xfb, 0x97, 0x0f, 0xa1
            ][..]
        )
        .unwrap()
    )
}

#[test]
fn reader_hands_out_source_and_digests_it() {
    let data = b"the quick brown fox";
    let mut reader = Sha1Reader::new(data);
    let mut gathered: Vec<u8> = Vec::new();
    loop {
        let chunk = reader.read(4);
        if chunk.is_empty() {
            break;
        }
        gathered.extend_from_slice(&chunk);
    }
    assert_eq!(data.to_vec(), gathered);
    assert_eq!(sha1_hex(data), reader.to_hex_string());
}

#[test]
fn reader_eof_is_empty_chunk() {
    let mut reader = Sha1Reader::new(b"ab");
    assert_eq!(vec![b'a', b'b'], reader.read(16));
    assert_eq!(Vec::<u8>::new(), reader.read(16));
}

// Round-trip identity: compressing a known plaintext and running the
// pipeline yields the plaintext's own digest on the output side.
#[test]
fn round_trip_identity() {
    let plain = b"a known plaintext, long enough to span several chunks of the copy loop";
    let frame = compress(plain);
    let line = reader_to_hashes(&frame).unwrap();
    let (src_hex, out_hex) = line.split_once(',').unwrap();
    assert_eq!(sha1_hex(&frame), src_hex);
    assert_eq!(sha1_hex(plain), out_hex);
}

// Determinism: the same input yields the identical output line, twice.
#[test]
fn determinism() {
    let first = reader_to_hashes(&TINY_FRAME).unwrap();
    let second = reader_to_hashes(&TINY_FRAME).unwrap();
    assert_eq!(first, second);
}

// End-to-end: a minimal valid frame wrapping an empty payload gives the
// digest of the compressed bytes on the source side and the digest of the
// empty sequence on the output side.
#[test]
fn empty_payload_frame() {
    let frame = compress(b"");
    let line = reader_to_hashes(&frame).unwrap();
    let (src_hex, out_hex) = line.split_once(',').unwrap();
    assert_eq!(sha1_hex(&frame), src_hex);
    assert_eq!(SHA1_EMPTY, out_hex);
}

// Failure: bytes that are no valid frame end the pipeline with an error and
// no result line.
#[test]
fn invalid_frame_is_an_error() {
    let garbage = b"this is not a compressed frame at all";
    let r = reader_to_hashes(garbage);
    assert!(r.is_err());
    match r {
        Err(PipelineError::InvalidFrame(msg)) => assert!(!msg.is_empty()),
        Ok(_) => panic!("garbage must not decode"),
    }
}

// A frame cut off in the middle of a data block is malformed.
#[test]
fn truncated_frame_is_an_error() {
    let frame = compress(b"payload");
    let r = reader_to_hashes(&frame[..frame.len() / 2]);
    assert!(r.is_err());
}

// Empty input: the source digest is the well-known digest of the empty
// sequence, and the frame decoder expands an empty input to empty output.
#[test]
fn empty_input() {
    let line = reader_to_hashes(b"").unwrap();
    let mut expected = String::from(SHA1_EMPTY);
    expected.push(',');
    expected.push_str(SHA1_EMPTY);
    assert_eq!(expected, line);
}

#[test]
fn error_message_is_carried() {
    let r = reader_to_hashes(b"certainly not a frame");
    match r {
        Err(e) => assert!(!e.message().is_empty()),
        Ok(_) => panic!("garbage must not decode"),
    }
}
