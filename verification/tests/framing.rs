use supervisor::codec::ByteArrayCodec;

#[test]
fn encode_prefixes_length_big_endian() {
    let mut codec = ByteArrayCodec::new();
    let mut wire: Vec<u8> = Vec::new();
    codec.encode(&vec![0xAA, 0xBB, 0xCC], &mut wire);
    assert_eq!(wire, vec![0, 0, 0, 3, 0xAA, 0xBB, 0xCC]);
}

#[test]
fn encode_appends_to_existing_buffer() {
    let mut codec = ByteArrayCodec::new();
    let mut wire: Vec<u8> = Vec::new();
    codec.encode(&vec![1], &mut wire);
    codec.encode(&vec![2, 3], &mut wire);
    assert_eq!(wire, vec![0, 0, 0, 1, 1, 0, 0, 0, 2, 2, 3]);
}

#[test]
fn decode_roundtrip_returns_the_frame() {
    let mut codec = ByteArrayCodec::new();
    let mut wire: Vec<u8> = Vec::new();
    let data = vec![9, 8, 7, 6, 5];
    codec.encode(&data, &mut wire);
    let frame = codec.decode(&mut wire);
    assert_eq!(frame, Some(data));
    assert!(wire.is_empty());
    assert_eq!(codec.len, None);
}

#[test]
fn decode_without_full_header_waits() {
    let mut codec = ByteArrayCodec::new();
    let mut wire = vec![0, 0, 0];
    assert_eq!(codec.decode(&mut wire), None);
    assert_eq!(wire, vec![0, 0, 0]);
    assert_eq!(codec.len, None);
}

#[test]
fn decode_remembers_length_of_incomplete_body() {
    let mut codec = ByteArrayCodec::new();
    // A frame of five bytes, of which only two have arrived.
    let mut wire = vec![0, 0, 0, 5, 10, 11];
    assert_eq!(codec.decode(&mut wire), None);
    // The header is consumed and the length remembered.
    assert_eq!(wire, vec![10, 11]);
    assert_eq!(codec.len, Some(5));
    // The rest arrives; the frame completes.
    wire.extend_from_slice(&[12, 13, 14]);
    assert_eq!(codec.decode(&mut wire), Some(vec![10, 11, 12, 13, 14]));
    assert!(wire.is_empty());
    assert_eq!(codec.len, None);
}

#[test]
fn decode_leaves_following_frames_in_the_buffer() {
    let mut codec = ByteArrayCodec::new();
    let mut wire: Vec<u8> = Vec::new();
    codec.encode(&vec![1, 2], &mut wire);
    codec.encode(&vec![3], &mut wire);
    assert_eq!(codec.decode(&mut wire), Some(vec![1, 2]));
    assert_eq!(wire, vec![0, 0, 0, 1, 3]);
    assert_eq!(codec.decode(&mut wire), Some(vec![3]));
    assert!(wire.is_empty());
}

#[test]
fn decode_empty_frame() {
    let mut codec = ByteArrayCodec::new();
    let mut wire: Vec<u8> = Vec::new();
    codec.encode(&Vec::new(), &mut wire);
    assert_eq!(wire, vec![0, 0, 0, 0]);
    assert_eq!(codec.decode(&mut wire), Some(Vec::new()));
    assert!(wire.is_empty());
}
