use esparrier::client::ClipboardStage;
use esparrier::clipboard_stash::{ClipboardFormat, ClipboardStash, States};
use esparrier::packet::Packet;
use esparrier::packet_stream::{MemStream, PacketStream};

fn frame(tag: &[u8; 4], payload: &[u8]) -> Vec<u8> {
    let mut out = Vec::new();
    let size = 4 + payload.len() as u32;
    out.extend_from_slice(&size.to_be_bytes());
    out.extend_from_slice(tag);
    out.extend_from_slice(payload);
    out
}

/// A clipboard field block: format count, then per format its code, its
/// length and its bytes.
fn block(formats: &[(u32, &[u8])]) -> Vec<u8> {
    let mut out = Vec::new();
    out.extend_from_slice(&(formats.len() as u32).to_be_bytes());
    for (code, data) in formats {
        out.extend_from_slice(&code.to_be_bytes());
        out.extend_from_slice(&(data.len() as u32).to_be_bytes());
        out.extend_from_slice(data);
    }
    out
}

fn dclp(mark: u8, body: &[u8]) -> Vec<u8> {
    let mut payload = vec![1u8];
    payload.extend_from_slice(&9u32.to_be_bytes());
    payload.push(mark);
    payload.extend_from_slice(body);
    frame(b"DCLP", &payload)
}

#[test]
fn stash_captures_text() {
    let mut stash = ClipboardStash::new();
    stash.feed(&block(&[(0, b"hello")]));
    assert!(stash.ended());
    assert!(!stash.is_empty());
    assert_eq!(stash.into_data(), Some(b"hello".to_vec()));
}

#[test]
fn stash_feeds_byte_at_a_time() {
    let mut stash = ClipboardStash::new();
    for b in block(&[(0, b"hello")]) {
        // Feeding an empty chunk between bytes is a no-op.
        stash.feed(&[]);
        stash.feed(&[b]);
    }
    assert_eq!(stash.into_data(), Some(b"hello".to_vec()));
}

#[test]
fn stash_discards_non_text_formats() {
    let mut stash = ClipboardStash::new();
    stash.feed(&block(&[(2, b"BITMAPDATA"), (0, b"text"), (1, b"<html>")]));
    assert!(stash.ended());
    assert_eq!(stash.get_current_format(), ClipboardFormat::Html);
    assert_eq!(stash.into_data(), Some(b"text".to_vec()));
}

#[test]
fn stash_bounds_capture_to_capacity() {
    // A 2000-byte text with a 1024-byte capacity: exactly 1024 bytes are
    // captured and all 2000 declared bytes are consumed, so the automaton
    // still reaches its end and the framing stays aligned.
    let text = vec![b'x'; 2000];
    let mut stash = ClipboardStash::new();
    stash.feed(&block(&[(0, &text)]));
    assert!(stash.ended());
    let data = stash.into_data().unwrap();
    assert_eq!(data.len(), 1024);
    assert!(data.iter().all(|b| *b == b'x'));
}

#[test]
fn stash_rejects_unknown_format_code() {
    let mut stash = ClipboardStash::new();
    stash.feed(&block(&[(9, b"?????")]));
    assert!(stash.ended());
    assert!(stash.is_empty());
    assert_eq!(stash.into_data(), None);
}

#[test]
fn stash_empty_block_yields_nothing() {
    let mut stash = ClipboardStash::new();
    stash.feed(&0u32.to_be_bytes());
    assert!(stash.ended());
    assert!(stash.is_empty());
    assert!(matches!(stash.state, States::End));
    assert_eq!(stash.into_data(), None);
}

#[test]
fn stash_zero_length_text_yields_nothing() {
    let mut stash = ClipboardStash::new();
    stash.feed(&block(&[(0, b"")]));
    assert!(stash.ended());
    assert_eq!(stash.into_data(), None);
}

#[test]
fn clipboard_transfer_captures_first_chunk() {
    // mark 1 announces the transfer, the first mark 2 chunk carries the
    // field block with one Text format.
    let mut bytes = dclp(1, b"246");
    bytes.extend_from_slice(&dclp(2, &block(&[(0, b"hello")])));
    let mut ps = PacketStream::new(MemStream::new(bytes));
    let mut stage = ClipboardStage::Idle;
    let first = ps.read(&mut stage).unwrap();
    assert!(matches!(first, Packet::SetClipboard { mark: 1, data: None, .. }));
    assert_eq!(stage, ClipboardStage::SawMark1);
    let second = ps.read(&mut stage).unwrap();
    assert_eq!(stage, ClipboardStage::ReceivingMark2(0));
    match second {
        Packet::SetClipboard { id, seq_num, mark, data } => {
            assert_eq!(id, 1);
            assert_eq!(seq_num, 9);
            assert_eq!(mark, 2);
            assert_eq!(data, Some(b"hello".to_vec()));
        }
        other => panic!("unexpected packet {other:?}"),
    }
}

#[test]
fn clipboard_second_chunk_is_discarded() {
    let mut bytes = dclp(1, b"246");
    bytes.extend_from_slice(&dclp(2, &block(&[(0, b"hello")])));
    bytes.extend_from_slice(&dclp(2, &block(&[(0, b"world")])));
    bytes.extend_from_slice(&dclp(3, b""));
    bytes.extend_from_slice(&frame(b"CALV", &[]));
    let mut ps = PacketStream::new(MemStream::new(bytes));
    let mut stage = ClipboardStage::Idle;
    let _ = ps.read(&mut stage).unwrap();
    let second = ps.read(&mut stage).unwrap();
    assert!(matches!(second, Packet::SetClipboard { data: Some(_), .. }));
    // The second data chunk is consumed for framing only: no data comes out.
    let third = ps.read(&mut stage).unwrap();
    assert!(matches!(third, Packet::SetClipboard { mark: 2, data: None, .. }));
    assert_eq!(stage, ClipboardStage::ReceivingMark2(1));
    let terminator = ps.read(&mut stage).unwrap();
    assert!(matches!(terminator, Packet::SetClipboard { mark: 3, data: None, .. }));
    assert_eq!(stage, ClipboardStage::Done);
    // The stream stayed aligned through all of it.
    assert_eq!(ps.read(&mut stage), Ok(Packet::KeepAlive));
}

#[test]
fn clipboard_data_before_header_is_dropped() {
    // A mark 2 chunk with no preceding mark 1 is a sequencing anomaly: the
    // transfer resets to idle, nothing is captured, the session lives on.
    let mut bytes = dclp(2, &block(&[(0, b"hello")]));
    bytes.extend_from_slice(&frame(b"CALV", &[]));
    let mut ps = PacketStream::new(MemStream::new(bytes));
    let mut stage = ClipboardStage::Idle;
    let p = ps.read(&mut stage).unwrap();
    assert!(matches!(p, Packet::SetClipboard { mark: 2, data: None, .. }));
    assert_eq!(stage, ClipboardStage::Idle);
    assert_eq!(ps.read(&mut stage), Ok(Packet::KeepAlive));
}

#[test]
fn clipboard_bad_mark_resets_stage() {
    let mut bytes = dclp(1, b"246");
    bytes.extend_from_slice(&dclp(7, b""));
    let mut ps = PacketStream::new(MemStream::new(bytes));
    let mut stage = ClipboardStage::Idle;
    let _ = ps.read(&mut stage).unwrap();
    assert_eq!(stage, ClipboardStage::SawMark1);
    let p = ps.read(&mut stage).unwrap();
    assert!(matches!(p, Packet::SetClipboard { mark: 7, data: None, .. }));
    assert_eq!(stage, ClipboardStage::Idle);
}

#[test]
fn oversized_text_through_the_codec_stays_aligned() {
    let text = vec![b'y'; 2000];
    let mut bytes = dclp(1, b"2024");
    bytes.extend_from_slice(&dclp(2, &block(&[(0, &text)])));
    bytes.extend_from_slice(&frame(b"CALV", &[]));
    let mut ps = PacketStream::new(MemStream::new(bytes));
    let mut stage = ClipboardStage::Idle;
    let _ = ps.read(&mut stage).unwrap();
    let p = ps.read(&mut stage).unwrap();
    match p {
        Packet::SetClipboard { data: Some(d), .. } => assert_eq!(d.len(), 1024),
        other => panic!("unexpected packet {other:?}"),
    }
    assert_eq!(ps.read(&mut stage), Ok(Packet::KeepAlive));
}
