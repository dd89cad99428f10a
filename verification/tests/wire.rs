use hermes::ontology::ErrorMessage;
use hermes::wire::{as_base64, from_base64, report_malformed};

#[test]
fn bytes_are_written_in_the_standard_alphabet_with_padding() {
    assert_eq!(as_base64(b"hello"), "aGVsbG8=");
    assert_eq!(as_base64(b"hello world~"), "aGVsbG8gd29ybGR+");
    assert_eq!(as_base64(&[0xfb, 0xff]), "+/8=");
    assert_eq!(as_base64(b""), "");
}

#[test]
fn text_is_read_back_as_bytes() {
    assert_eq!(from_base64("aGVsbG8="), Ok(b"hello".to_vec()));
    assert_eq!(from_base64("+/8="), Ok(vec![0xfb, 0xff]));
    assert_eq!(from_base64(""), Ok(Vec::new()));
}

#[test]
fn what_was_written_is_read_back() {
    let bytes: Vec<u8> = (0..=255u8).collect();
    let text = as_base64(&bytes);
    assert_ne!(text.as_bytes(), bytes.as_slice());
    assert_eq!(from_base64(&text), Ok(bytes));
}

#[test]
fn text_outside_the_alphabet_is_refused() {
    let failure = from_base64("not base64!").unwrap_err();
    assert!(!failure.reason.is_empty());
}

#[test]
fn text_of_a_wrong_length_is_refused() {
    assert!(from_base64("a").is_err());
    assert!(from_base64("aGVsb").is_err());
}

#[test]
fn text_without_its_padding_is_read_too() {
    assert_eq!(from_base64("aGVsbG8"), Ok(b"hello".to_vec()));
}

#[test]
fn malformed_payload_of_a_known_session_is_answered_by_an_error() {
    assert_eq!(
        report_malformed(Some("4".to_string()), "missing field `text`".to_string()),
        Some(ErrorMessage {
            session_id: Some("4".to_string()),
            error: "malformed message".to_string(),
            context: Some("missing field `text`".to_string()),
        })
    );
}

#[test]
fn malformed_payload_of_no_session_is_dropped() {
    assert_eq!(report_malformed(None, "missing field `text`".to_string()), None);
}
