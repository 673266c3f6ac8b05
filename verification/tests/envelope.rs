use magika_boundary::{Error, ResultWrap};

#[test]
fn success_holds_the_payload_and_nothing_else() {
    let e = ResultWrap::success(7u32);
    assert_eq!(e.pointer, Some(7));
    assert_eq!(e.error, 0);
    assert_eq!(e.error_message, None);
}

#[test]
fn failure_without_words_has_no_diagnostic() {
    let e: ResultWrap<u32> = ResultWrap::failure(Error::NullSession, None);
    assert_eq!(e.pointer, None);
    assert_eq!(e.error, 3);
    assert_eq!(e.error_message, None);
}

#[test]
fn failure_copies_the_diagnostic_into_a_terminated_buffer() {
    let e: ResultWrap<u32> = ResultWrap::failure(Error::CannotCreateSession, Some("no model"));
    assert_eq!(e.pointer, None);
    assert_eq!(e.error, 1);
    assert_eq!(e.error_message, Some(b"no model\0".to_vec()));
}

#[test]
fn from_outcome_wraps_a_value_as_success() {
    let e = ResultWrap::from_outcome(Ok(9u8), Error::CannotIdentifyFile);
    assert_eq!(e.pointer, Some(9));
    assert_eq!(e.error, 0);
    assert_eq!(e.error_message, None);
}

#[test]
fn from_outcome_wraps_an_error_under_the_given_code() {
    let outcome: Result<u8, String> = Err("No such file or directory (os error 2)".to_string());
    let e = ResultWrap::from_outcome(outcome, Error::CannotIdentifyFile);
    assert_eq!(e.pointer, None);
    assert_eq!(e.error, 2);
    assert_eq!(e.error_message, Some(b"No such file or directory (os error 2)\0".to_vec()));
}

#[test]
fn from_outcome_keeps_an_empty_diagnostic() {
    let outcome: Result<u8, String> = Err(String::new());
    let e = ResultWrap::from_outcome(outcome, Error::CannotCreateSession);
    assert_eq!(e.error, 1);
    assert_eq!(e.error_message, Some(vec![0u8]));
}

#[test]
fn from_outcome_leaves_zero_bytes_out_of_the_diagnostic() {
    let outcome: Result<u8, String> = Err("bad\0words".to_string());
    let e = ResultWrap::from_outcome(outcome, Error::CannotIdentifyFile);
    assert_eq!(e.pointer, None);
    assert_eq!(e.error, 2);
    assert_eq!(e.error_message, Some(b"badwords\0".to_vec()));
}

#[test]
fn failure_leaves_zero_bytes_out_of_the_diagnostic() {
    let e: ResultWrap<u32> = ResultWrap::failure(Error::CannotCreateSession, Some("\0no\0 model\0"));
    assert_eq!(e.pointer, None);
    assert_eq!(e.error, 1);
    assert_eq!(e.error_message, Some(b"no model\0".to_vec()));
}

#[test]
fn failure_with_only_zero_bytes_has_an_empty_diagnostic() {
    let e: ResultWrap<u32> = ResultWrap::failure(Error::CannotIdentifyFile, Some("\0\0"));
    assert_eq!(e.error, 2);
    assert_eq!(e.error_message, Some(vec![0u8]));
}
