use magika_boundary::{magika_session_free, magika_session_new, Error, Release};

fn no_runtime() -> Result<magika::Session, String> {
    Err("libonnxruntime.so: cannot open shared object file".to_string())
}

#[test]
fn session_that_cannot_be_made_is_a_failure_envelope() {
    let e = magika_session_new(no_runtime());
    assert_eq!(e.error, 1);
    assert_eq!(Error::from_code(e.error), Some(Error::CannotCreateSession));
    assert!(e.pointer.is_none());
    assert_eq!(
        e.error_message,
        Some(b"libonnxruntime.so: cannot open shared object file\0".to_vec())
    );
}

#[test]
fn session_failure_leaves_zero_bytes_out_of_the_words() {
    let e = magika_session_new(Err("no\0 runtime".to_string()));
    assert_eq!(e.error, 1);
    assert!(e.pointer.is_none());
    assert_eq!(e.error_message, Some(b"no runtime\0".to_vec()));
}

#[test]
fn failed_session_envelope_is_released_in_two_steps() {
    let e = magika_session_new(no_runtime());
    assert_eq!(magika_session_free(Some(e)), vec![Release::Diagnostic, Release::Envelope]);
}
