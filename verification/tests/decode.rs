//! Output decoding scenarios: strict and lossy UTF-8.

use testutils::os_cmd::DecodedText;

#[test]
fn valid_utf8_is_lossless() {
    let stdout = vec![108, 111, 115, 115, 108, 101, 115, 115, 10];
    let output = DecodedText::from_vec(stdout);
    assert_eq!(output.lossy, false);
    assert_eq!(output.data(), "lossless\n");

    let unicode = DecodedText::from_bytes("héllo wörld".as_bytes());
    assert!(!unicode.lossy);
    assert_eq!(unicode.data(), "héllo wörld");
}

#[test]
fn invalid_utf8_is_replaced_and_marked() {
    let output = DecodedText::from_bytes(&[0x68, 0xFF, 0x69]);
    assert!(output.lossy);
    assert_eq!(output.data(), "h\u{FFFD}i");

    let invalid_run = DecodedText::from_bytes(&[0xC3, 0x28, 0x61]);
    assert!(invalid_run.lossy);
    assert!(invalid_run.data().contains('\u{FFFD}'));
    assert!(invalid_run.data().ends_with("(a"));
}

#[test]
fn decoding_decoded_text_is_a_no_op() {
    let first = DecodedText::from_bytes(&[0x68, 0xFF, 0x69]);
    let again = DecodedText::from_bytes(first.data().as_bytes());
    assert!(!again.lossy);
    assert_eq!(again.data(), first.data());

    let text = DecodedText::from_bytes(b"plain");
    let again = DecodedText::from_bytes(text.data().as_bytes());
    assert!(!again.lossy);
    assert_eq!(again.take_data(), "plain");
}

#[test]
fn take_data_and_into_compact_string_agree() {
    let a = DecodedText::new_lossless("abc".to_string());
    assert_eq!(a.into_compact_string(), "abc");
    let b = DecodedText::new_lossy("xyz".to_string());
    assert!(b.lossy);
    assert_eq!(b.take_data(), "xyz");
}
