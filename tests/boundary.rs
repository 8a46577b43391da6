use rust_host_func::boundary::{
    decode_text, finalize_bytes, finalize_text, google_count, readable_length, receive_capacity,
    request_length, response_text, BoundaryError, GOOGLE_URL, PARSE_FAILURE,
};

/// A stand-in for the host: it stages `staged`, reports `claimed` as the
/// result length and writes at most the bytes it has.
fn mock_exchange(staged: &[u8], claimed: i32) -> (Vec<u8>, usize, usize) {
    let capacity = receive_capacity(claimed).unwrap();
    let mut buffer = vec![0u8; capacity];
    let written = staged.len().min(capacity);
    buffer[..written].copy_from_slice(&staged[..written]);
    (buffer, capacity, written)
}

#[test]
fn empty_result_is_empty_text() {
    let (buffer, claimed, confirmed) = mock_exchange(b"", 0);
    assert_eq!(finalize_bytes(&buffer, claimed, confirmed), Vec::<u8>::new());
    assert_eq!(finalize_text(&buffer, claimed, confirmed), Ok(String::new()));
    assert_eq!(response_text(&buffer, claimed, confirmed), "");
}

#[test]
fn short_write_is_not_read_past() {
    let (buffer, claimed, confirmed) = mock_exchange(b"abc", 8);
    assert_eq!(claimed, 8);
    assert_eq!(confirmed, 3);
    assert_eq!(finalize_bytes(&buffer, claimed, confirmed), b"abc".to_vec());
    assert_eq!(response_text(&buffer, claimed, confirmed), "abc");
}

#[test]
fn claimed_length_caps_reading() {
    let buffer = b"abcdef".to_vec();
    assert_eq!(finalize_bytes(&buffer, 2, 6), b"ab".to_vec());
    assert_eq!(finalize_bytes(&buffer, 9, 9), b"abcdef".to_vec());
    assert_eq!(readable_length(6, 4, 5), 4);
    assert_eq!(readable_length(3, 4, 5), 3);
}

#[test]
fn request_length_of_url() {
    assert_eq!(request_length(&GOOGLE_URL.as_bytes().to_vec()), Ok(22));
    assert_eq!(request_length(&vec![]), Ok(0));
}

#[test]
fn negative_length_is_refused() {
    assert_eq!(receive_capacity(-1), Err(BoundaryError::NegativeLength));
    assert_eq!(receive_capacity(0), Ok(0));
    assert_eq!(receive_capacity(i32::MAX), Ok(i32::MAX as usize));
}

#[test]
fn invalid_utf8_is_recoverable() {
    let bad = vec![b'a', 0xff, b'b'];
    assert_eq!(decode_text(bad.clone()), Err(BoundaryError::InvalidUtf8));
    assert_eq!(response_text(&bad, 3, 3), PARSE_FAILURE);
    assert_eq!(response_text(&bad, 1, 3), "a");
    assert_eq!(google_count(&bad, 3, 3), 0);
}

#[test]
fn decoding_multibyte_text() {
    let bytes = "añ€".as_bytes().to_vec();
    assert_eq!(decode_text(bytes.clone()), Ok("añ€".to_string()));
    assert_eq!(finalize_text(&bytes, 2, 6), Err(BoundaryError::InvalidUtf8));
}

#[test]
fn counting_a_fetched_page() {
    let page = b"google Google google".to_vec();
    assert_eq!(google_count(&page, 20, 20), 2);
    assert_eq!(google_count(&page, 6, 20), 1);
}
