use xarfuse::errors::XarError;
use xarfuse::header::find_header_end;
use xarfuse::header::header_payload_offset;

#[test]
fn header_end_follows_sentinel_line() {
    let bytes = b"OFFSET = \"100\"\nUUID = \"abc\"\n#xar_stop\nBINARYBYTES".to_vec();
    // The offset is the byte position immediately following the sentinel line.
    let expect = b"OFFSET = \"100\"\nUUID = \"abc\"\n#xar_stop\n".len();
    assert_eq!(find_header_end(&bytes), Some(expect));
}

#[test]
fn sentinel_at_start_of_stream() {
    let bytes = b"#xar_stop\nrest".to_vec();
    assert_eq!(find_header_end(&bytes), Some(10));
}

#[test]
fn sentinel_line_may_carry_a_suffix() {
    // The terminator line only has to begin with the sentinel.
    let bytes = b"a = 1\n#xar_stop here\nrest".to_vec();
    assert_eq!(find_header_end(&bytes), Some(21));
}

#[test]
fn sentinel_must_start_a_line() {
    let bytes = b"x#xar_stop\n".to_vec();
    assert_eq!(find_header_end(&bytes), None);
}

#[test]
fn missing_sentinel_is_malformed() {
    let bytes = b"OFFSET = \"100\"\nUUID = \"abc\"\n".to_vec();
    assert_eq!(find_header_end(&bytes), None);
    assert_eq!(find_header_end(&Vec::new()), None);
}

#[test]
fn sentinel_without_trailing_newline_ends_at_stream_end() {
    let bytes = b"a = 1\n#xar_stop".to_vec();
    assert_eq!(find_header_end(&bytes), Some(bytes.len()));
}

#[test]
fn first_sentinel_line_wins() {
    let bytes = b"#xar_stop\n#xar_stop\n".to_vec();
    assert_eq!(find_header_end(&bytes), Some(10));
}

#[test]
fn missing_sentinel_is_a_header_format_error() {
    let bytes = b"OFFSET = \"100\"\n".to_vec();
    assert_eq!(header_payload_offset(&bytes), Err(XarError::HeaderFormat));
    let bytes = b"a = 1\n#xar_stop\nrest".to_vec();
    assert_eq!(header_payload_offset(&bytes), Ok(16));
}

#[test]
fn partial_sentinel_is_not_accepted() {
    let bytes = b"#xar_sto\n#xar\n".to_vec();
    assert_eq!(find_header_end(&bytes), None);
}
