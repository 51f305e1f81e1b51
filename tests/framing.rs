use twinpane::framing::{encode_frame, FrameReader};

#[test]
fn frame_header_is_big_endian_length() {
    let f = encode_frame(b"Ok");
    assert_eq!(f, vec![0, 0, 0, 0, 0, 0, 0, 2, b'O', b'k']);
}

#[test]
fn payload_of_exact_chunk_multiple_is_reassembled() {
    let payload: Vec<u8> = (0..2000u32).map(|i| (i % 251) as u8).collect();
    let framed = encode_frame(&payload);
    let mut reader = FrameReader::new();
    let mut got = None;
    for chunk in framed.chunks(1000) {
        assert!(got.is_none());
        reader.push(chunk);
        got = reader.next_frame();
    }
    assert_eq!(got, Some(payload));
    assert_eq!(reader.next_frame(), None);
}

#[test]
fn payload_of_one_chunk_is_reassembled() {
    let payload = vec![b'x'; 1000];
    let framed = encode_frame(&payload);
    let mut reader = FrameReader::new();
    reader.push(&framed[..1000]);
    assert_eq!(reader.next_frame(), None);
    reader.push(&framed[1000..]);
    assert_eq!(reader.next_frame(), Some(payload));
}

#[test]
fn frames_arriving_together_are_split() {
    let mut bytes = encode_frame(b"first");
    bytes.extend(encode_frame(b""));
    bytes.extend(encode_frame(b"third"));
    let mut reader = FrameReader::new();
    reader.push(&bytes);
    assert_eq!(reader.next_frame(), Some(b"first".to_vec()));
    assert_eq!(reader.next_frame(), Some(Vec::new()));
    assert_eq!(reader.next_frame(), Some(b"third".to_vec()));
    assert_eq!(reader.next_frame(), None);
}

#[test]
fn frame_fed_byte_by_byte() {
    let framed = encode_frame(b"GetDir /tmp|0");
    let mut reader = FrameReader::new();
    for (i, b) in framed.iter().enumerate() {
        reader.push(&[*b]);
        let got = reader.next_frame();
        if i + 1 < framed.len() {
            assert_eq!(got, None);
        } else {
            assert_eq!(got, Some(b"GetDir /tmp|0".to_vec()));
        }
    }
}

#[test]
fn drain_hands_out_every_whole_message() {
    let mut bytes = encode_frame(b"one");
    bytes.extend(encode_frame(b"two"));
    bytes.extend(&encode_frame(b"three")[..4]);
    let mut reader = FrameReader::new();
    reader.push(&bytes);
    assert_eq!(reader.drain(), vec![b"one".to_vec(), b"two".to_vec()]);
    assert!(reader.drain().is_empty());
    reader.push(&encode_frame(b"three")[4..]);
    assert_eq!(reader.drain(), vec![b"three".to_vec()]);
}
