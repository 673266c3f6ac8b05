use magika_boundary::text::{contains_nul, terminate, terminate_diagnostic, try_terminate};

#[test]
fn terminate_appends_one_zero_byte() {
    assert_eq!(terminate("txt"), vec![b't', b'x', b't', 0]);
    assert_eq!(terminate("text/plain"), b"text/plain\0".to_vec());
}

#[test]
fn terminate_empty_text_is_the_terminator_alone() {
    assert_eq!(terminate(""), vec![0u8]);
}

#[test]
fn terminate_keeps_the_bytes_of_wide_characters() {
    assert_eq!(terminate("é"), vec![0xc3, 0xa9, 0]);
    assert_eq!(terminate("a€"), vec![b'a', 0xe2, 0x82, 0xac, 0]);
}

#[test]
fn contains_nul_finds_a_zero_byte_anywhere() {
    assert!(!contains_nul(b""));
    assert!(!contains_nul(b"abc"));
    assert!(contains_nul(b"\0"));
    assert!(contains_nul(b"\0abc"));
    assert!(contains_nul(b"ab\0c"));
    assert!(contains_nul(b"abc\0"));
}

#[test]
fn try_terminate_refuses_text_with_a_zero_byte() {
    assert_eq!(try_terminate("a\0b"), None);
    assert_eq!(try_terminate("\0"), None);
    assert_eq!(try_terminate("ab\0"), None);
}

#[test]
fn try_terminate_agrees_with_terminate() {
    assert_eq!(try_terminate("rust"), Some(b"rust\0".to_vec()));
    assert_eq!(try_terminate(""), Some(vec![0u8]));
}

#[test]
fn terminate_diagnostic_copies_text_without_zero_bytes_as_it_is() {
    assert_eq!(terminate_diagnostic("No such file"), b"No such file\0".to_vec());
    assert_eq!(terminate_diagnostic(""), vec![0u8]);
    assert_eq!(terminate_diagnostic("é"), vec![0xc3, 0xa9, 0]);
    assert_eq!(terminate_diagnostic("abc"), terminate("abc"));
}

#[test]
fn terminate_diagnostic_leaves_zero_bytes_out() {
    assert_eq!(terminate_diagnostic("a\0b"), b"ab\0".to_vec());
    assert_eq!(terminate_diagnostic("\0ab"), b"ab\0".to_vec());
    assert_eq!(terminate_diagnostic("ab\0"), b"ab\0".to_vec());
    assert_eq!(terminate_diagnostic("\0"), vec![0u8]);
    assert_eq!(terminate_diagnostic("a\0\0é\0"), vec![b'a', 0xc3, 0xa9, 0]);
}
