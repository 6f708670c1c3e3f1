use psqlx::text::{decode_text, encode_text, split_commands, DecodeError};

fn names(v: &[String]) -> Vec<&str> {
    v.iter().map(|s| s.as_str()).collect()
}

#[test]
fn split_two_commands() {
    let v = split_commands("alpha,beta");
    assert_eq!(names(&v), vec!["alpha", "beta"]);
}

#[test]
fn split_empty_advertisement_owns_nothing() {
    assert!(split_commands("").is_empty());
    assert!(split_commands(",,").is_empty());
}

#[test]
fn split_keeps_spaces_and_collapses_duplicates() {
    let v = split_commands(" a,a, a,a,,b");
    assert_eq!(names(&v), vec![" a", "a", "b"]);
}

#[test]
fn split_single_command() {
    assert_eq!(names(&split_commands("generate")), vec!["generate"]);
}

#[test]
fn decode_null_text() {
    assert_eq!(decode_text(None), Err(DecodeError::Null));
}

#[test]
fn decode_invalid_utf8() {
    let bytes: [u8; 3] = [0x61, 0xff, 0x62];
    assert_eq!(decode_text(Some(&bytes[..])), Err(DecodeError::InvalidUtf8));
}

#[test]
fn decode_valid_text() {
    let bytes = "héllo".as_bytes();
    assert_eq!(decode_text(Some(bytes)), Ok("héllo".to_string()));
}

#[test]
fn encode_rejects_nul() {
    assert_eq!(encode_text("a\0b"), None);
}

#[test]
fn encode_then_decode_round_trip() {
    let b = encode_text("fix").unwrap();
    assert_eq!(b, b"fix".to_vec());
    assert_eq!(decode_text(Some(&b[..])), Ok("fix".to_string()));
}
