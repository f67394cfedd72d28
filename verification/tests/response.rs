use gemclient::payload::Status;
use gemclient::response::{ResponseDecoder, ResponseDecoderError};

fn decode(buf: &[u8]) -> Result<gemclient::payload::Response, ResponseDecoderError> {
    ResponseDecoder {}.decode(buf.to_vec())
}

#[test]
fn success_response_with_body() {
    let resp = decode(b"20 text/plain\r\nHello").unwrap();
    assert_eq!(resp.header.status, Status::Success);
    assert_eq!(resp.header.meta, "text/plain");
    assert_eq!(resp.mime, Some("text/plain".parse::<mime::Mime>().unwrap()));
    assert_eq!(resp.body, b"Hello".to_vec());
}

#[test]
fn not_found_response_without_body() {
    let resp = decode(b"51 not found\r\n").unwrap();
    assert_eq!(resp.header.status, Status::NotFound);
    assert_eq!(resp.header.meta, "not found");
    assert!(resp.mime.is_none());
    assert!(resp.body.is_empty());
}

#[test]
fn all_two_digit_values_decode_to_the_closed_set() {
    for code in 0..100 {
        let buf = format!("{:02} text/plain\r\n", code).into_bytes();
        let got = ResponseDecoder {}.decode(buf);
        match Status::try_from(code) {
            Ok(status) => assert_eq!(got.unwrap().header.status, status),
            Err(()) => assert!(matches!(
                got,
                Err(ResponseDecoderError::BadStatus(_))
            )),
        }
    }
}

#[test]
fn short_buffer_is_bad_status_with_raw_bytes() {
    match decode(b"2") {
        Err(ResponseDecoderError::BadStatus(raw)) => assert_eq!(raw, b"2".to_vec()),
        _ => panic!("expected BadStatus"),
    }
}

#[test]
fn unmapped_code_is_bad_status_with_prefix() {
    match decode(b"99 nope\r\n") {
        Err(ResponseDecoderError::BadStatus(raw)) => assert_eq!(raw, b"99 ".to_vec()),
        _ => panic!("expected BadStatus"),
    }
}

#[test]
fn non_digit_status_is_bad_status() {
    assert!(matches!(
        decode(b"2a text/plain\r\n"),
        Err(ResponseDecoderError::BadStatus(_))
    ));
}

#[test]
fn missing_crlf_within_bound_is_bad_metadata() {
    let mut buf = b"20 ".to_vec();
    buf.extend(std::iter::repeat(b'a').take(2000));
    assert!(matches!(
        decode(&buf),
        Err(ResponseDecoderError::BadMeta(raw)) if raw.is_empty()
    ));
}

#[test]
fn crlf_past_the_bound_is_bad_metadata() {
    let mut buf = b"20 ".to_vec();
    buf.extend(std::iter::repeat(b'a').take(1100));
    buf.extend(b"\r\nbody");
    assert!(matches!(
        decode(&buf),
        Err(ResponseDecoderError::BadMeta(_))
    ));
}

#[test]
fn crlf_just_inside_the_bound_succeeds() {
    // 1024 metadata bytes, then CR-LF: the largest line the protocol allows.
    let mut buf = b"20 ".to_vec();
    buf.extend(std::iter::repeat(b'x').take(1022));
    buf.extend(b"/y\r\nbody");
    let resp = decode(&buf).unwrap();
    assert_eq!(resp.header.meta.len(), 1024);
    assert_eq!(resp.body, b"body".to_vec());
}

#[test]
fn bare_line_feed_does_not_terminate_metadata() {
    let resp = decode(b"51 a\nb\r\nrest").unwrap();
    assert_eq!(resp.header.meta, "a\nb");
    assert_eq!(resp.body, b"rest".to_vec());
}

#[test]
fn invalid_utf8_metadata_is_bad_metadata_with_raw_line() {
    match decode(b"51 \xff\xfe\r\nbody") {
        Err(ResponseDecoderError::BadMeta(raw)) => assert_eq!(raw, b"\xff\xfe\r\n".to_vec()),
        _ => panic!("expected BadMeta"),
    }
}

#[test]
fn multibyte_metadata_decodes_to_its_characters() {
    let resp = decode("51 caf\u{e9} introuvable\r\n".as_bytes()).unwrap();
    assert_eq!(resp.header.meta, "caf\u{e9} introuvable");
}

#[test]
fn unparsable_mime_on_success_is_bad_mime() {
    assert!(matches!(
        decode(b"20 not a mime\r\n"),
        Err(ResponseDecoderError::BadMime(_))
    ));
}

#[test]
fn parse_status_consumes_three_bytes_and_parse_meta_the_line() {
    let decoder = ResponseDecoder {};
    let buf = b"31 gemini://elsewhere/\r\nignored";
    let status = decoder.parse_status(buf).unwrap();
    assert_eq!(status, Status::RedirectPermanent);
    let (meta, end) = decoder.parse_meta(buf, 3).unwrap();
    assert_eq!(meta, "gemini://elsewhere/");
    assert_eq!(&buf[end..], b"ignored");
}
