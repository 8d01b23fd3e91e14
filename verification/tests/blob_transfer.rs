use wholesum::blob_transfer::{
    BlobCodec, ReadStep, Request, Response, REQUEST_BUFFER_LEN, RESPONSE_CHUNK_LEN,
    RESPONSE_HEADER_LEN,
};

#[test]
fn buffer_sizes() {
    assert_eq!(REQUEST_BUFFER_LEN, 1024);
    assert_eq!(RESPONSE_CHUNK_LEN, 1 << 16);
    assert_eq!(RESPONSE_HEADER_LEN, 4);
}

#[test]
fn response_header_is_big_endian_length() {
    let codec = BlobCodec;
    assert_eq!(codec.response_header(&Response(vec![7u8; 258])), [0, 0, 1, 2]);
    assert_eq!(codec.response_header(&Response(vec![])), [0, 0, 0, 0]);
    assert_eq!(codec.response_header(&Response(vec![1, 2, 3, 4, 5])), [0, 0, 0, 5]);
    assert_eq!(codec.response_header(&Response(vec![0u8; 70_000])), [0, 1, 0x11, 0x70]);
}

#[test]
fn start_response_reads_header() {
    let codec = BlobCodec;
    assert_eq!(codec.start_response([0, 0, 1, 2]).total_size(), 258);
    assert_eq!(codec.start_response([0x12, 0x34, 0x56, 0x78]).total_size(), 0x1234_5678);
    assert_eq!(codec.start_response([0xff, 0xff, 0xff, 0xff]).total_size(), u32::MAX);
    let reader = codec.start_response([0, 0, 0, 9]);
    assert_eq!(reader.received_len(), 0);
    assert_eq!(reader.finish().0, Vec::<u8>::new());
}

#[test]
fn reader_collects_chunks_until_empty_read() {
    let codec = BlobCodec;
    let mut reader = codec.start_response([0, 0, 0, 6]);
    assert_eq!(reader.on_read(&[1, 2]), ReadStep::Progress { bytes: 2 });
    assert_eq!(reader.on_read(&[3, 4, 5, 6]), ReadStep::Progress { bytes: 4 });
    assert_eq!(reader.received_len(), 6);
    assert_eq!(reader.on_read(&[]), ReadStep::Finished);
    assert_eq!(reader.received_len(), 6);
    assert_eq!(reader.total_size(), 6);
    assert_eq!(reader.finish().0, vec![1, 2, 3, 4, 5, 6]);
}

#[test]
fn reader_keeps_bytes_beyond_announced_length() {
    let codec = BlobCodec;
    let mut reader = codec.start_response([0, 0, 0, 1]);
    assert_eq!(reader.on_read(&[9, 8, 7]), ReadStep::Progress { bytes: 3 });
    assert_eq!(reader.finish().0, vec![9, 8, 7]);
}

#[test]
fn response_frame_round_trip() {
    let codec = BlobCodec;
    let body: Vec<u8> = (0..200_000u32).map(|i| (i % 251) as u8).collect();
    let header = codec.response_header(&Response(body.clone()));
    let mut stream = header.to_vec();
    stream.extend_from_slice(&body);

    let mut head = [0u8; 4];
    head.copy_from_slice(&stream[..RESPONSE_HEADER_LEN]);
    let mut reader = codec.start_response(head);
    assert_eq!(reader.total_size() as usize, body.len());
    let mut progress: u64 = 0;
    for chunk in stream[RESPONSE_HEADER_LEN..].chunks(RESPONSE_CHUNK_LEN) {
        match reader.on_read(chunk) {
            ReadStep::Progress { bytes } => progress += bytes,
            ReadStep::Finished => panic!("a non-empty read ended the response"),
        }
    }
    assert_eq!(reader.on_read(&[]), ReadStep::Finished);
    assert_eq!(progress, body.len() as u64);
    assert_eq!(reader.finish().0, body);
}

#[test]
fn encode_request_is_utf8() {
    let codec = BlobCodec;
    assert_eq!(codec.encode_request(&Request("abc".to_string())), b"abc".to_vec());
    assert_eq!(
        codec.encode_request(&Request("h\u{e9}llo".to_string())),
        vec![b'h', 0xc3, 0xa9, b'l', b'l', b'o']
    );
    assert_eq!(codec.encode_request(&Request(String::new())), Vec::<u8>::new());
}

#[test]
fn decode_request_valid_utf8() {
    let codec = BlobCodec;
    assert_eq!(codec.decode_request(b"0xdeadbeef").0, "0xdeadbeef");
    assert_eq!(codec.decode_request(&[b'h', 0xc3, 0xa9]).0, "h\u{e9}");
    assert_eq!(codec.decode_request(&[]).0, "");
}

#[test]
fn decode_request_replaces_invalid_bytes() {
    let codec = BlobCodec;
    assert_eq!(codec.decode_request(&[b'a', 0xff, b'b']).0, "a\u{fffd}b");
    assert_eq!(codec.decode_request(&[0xc3]).0, "\u{fffd}");
}

#[test]
fn decode_request_reads_one_buffer() {
    let codec = BlobCodec;
    let long = "x".repeat(1500);
    let req = codec.decode_request(long.as_bytes());
    assert_eq!(req.0, "x".repeat(1024));
    let exact = "y".repeat(1024);
    assert_eq!(codec.decode_request(exact.as_bytes()).0, exact);
}

#[test]
fn request_round_trip() {
    let codec = BlobCodec;
    for text in ["", "blob-hash-1234", "\u{1F600} ok", "\u{e9}\u{e8}\u{ea}"] {
        let bytes = codec.encode_request(&Request(text.to_string()));
        assert_eq!(codec.decode_request(&bytes).0, text);
    }
}

#[test]
fn reader_result_independent_of_chunking() {
    let codec = BlobCodec;
    let body: Vec<u8> = (0..1000u32).map(|i| (i * 7 % 256) as u8).collect();
    let header = codec.response_header(&Response(body.clone()));
    for size in [1usize, 3, 64, 999, 1000, 5000] {
        let mut reader = codec.start_response(header);
        let mut progress: u64 = 0;
        for chunk in body.chunks(size) {
            if let ReadStep::Progress { bytes } = reader.on_read(chunk) {
                progress += bytes;
            }
        }
        assert_eq!(reader.on_read(&[]), ReadStep::Finished);
        assert_eq!(progress, 1000);
        assert_eq!(reader.total_size(), 1000);
        assert_eq!(reader.finish(), Response(body.clone()));
    }
}
