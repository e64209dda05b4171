use base64::engine::general_purpose::STANDARD;
use base64::Engine;
use image_saver::data_url::{decode_image_data, extract_payload, find_comma, starts_with, DataUrlError};

const PNG_HEADER: [u8; 8] = [0x89, b'P', b'N', b'G', 0x0D, 0x0A, 0x1A, 0x0A];

#[test]
fn jpeg_data_url_round_trip() {
    let bytes: Vec<u8> = (0..=255u8).collect();
    let url = format!("data:image/jpeg;base64,{}", STANDARD.encode(&bytes));
    assert_eq!(decode_image_data(&url), Ok(bytes));
}

#[test]
fn png_data_url_round_trip() {
    let bytes = vec![0u8, 1, 2, 250, 251, 252, 253];
    let url = format!("data:image/png;base64,{}", STANDARD.encode(&bytes));
    assert_eq!(decode_image_data(&url), Ok(bytes));
}

#[test]
fn png_example_decodes_to_png_header() {
    let r = decode_image_data("data:image/png;base64,iVBORw0KGgo=");
    assert_eq!(r, Ok(PNG_HEADER.to_vec()));
}

#[test]
fn empty_payload_after_prefix_is_no_bytes() {
    assert_eq!(decode_image_data("data:image/jpeg;base64,"), Ok(vec![]));
}

#[test]
fn other_mime_type_uses_text_after_comma() {
    assert_eq!(decode_image_data("data:image/gif;base64,QUJD"), Ok(b"ABC".to_vec()));
    assert_eq!(extract_payload("data:image/gif;base64,QUJD"), Some("QUJD"));
}

#[test]
fn payload_is_everything_after_first_comma() {
    assert_eq!(extract_payload("x,QUJD,zz"), Some("QUJD,zz"));
    assert!(matches!(decode_image_data("x,QUJD,zz"), Err(DataUrlError::Base64(_))));
    assert_eq!(extract_payload(",QUJD"), Some("QUJD"));
    assert_eq!(extract_payload("abc,"), Some(""));
}

#[test]
fn no_prefix_and_no_comma_is_format_error() {
    assert_eq!(decode_image_data("QUJD"), Err(DataUrlError::Format));
    assert_eq!(decode_image_data(""), Err(DataUrlError::Format));
    assert_eq!(extract_payload("iVBORw0KGgo="), None);
}

#[test]
fn prefix_with_invalid_base64_is_decode_error() {
    assert!(matches!(decode_image_data("data:image/jpeg;base64,@@@@"), Err(DataUrlError::Base64(_))));
    assert!(matches!(decode_image_data("data:image/png;base64,QUJ"), Err(DataUrlError::Base64(_))));
    assert!(matches!(decode_image_data("data:image/png;base64,QUJD="), Err(DataUrlError::Base64(_))));
}

#[test]
fn url_safe_alphabet_is_rejected() {
    assert!(matches!(decode_image_data("data:image/png;base64,-_-_"), Err(DataUrlError::Base64(_))));
    assert_eq!(decode_image_data("data:image/png;base64,+/+/"), Ok(vec![0xfb, 0xff, 0xbf]));
}

#[test]
fn prefix_and_comma_helpers() {
    assert!(starts_with("data:image/png;base64,AA==", "data:image/png;base64,"));
    assert!(!starts_with("data:image/png", "data:image/png;base64,"));
    assert!(starts_with("abc", ""));
    assert_eq!(find_comma("a,b,c"), Some(1));
    assert_eq!(find_comma("äö,x"), Some(2));
    assert_eq!(find_comma("abc"), None);
}
