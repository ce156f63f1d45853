use readline4k::config::ConfigError;
use readline4k::envelope::{
    config_failure, encoding_failure, failure, free_read_line_result, handle_readline_result,
    handle_simple_result, read_success, release_plan, text_argument, FailureKind, ReadLineResult,
    Release, ERROR_CONFIG, ERROR_ENCODING, ERROR_EOF, ERROR_INTERRUPTED, ERROR_UNKNOWN, OK,
};
use readline4k::marshal::EncodingError;
use rustyline::error::ReadlineError;

fn well_formed(envelope: &ReadLineResult) -> bool {
    let texts_cross = envelope.error_message.iter().chain(envelope.result.iter()).all(|text| {
        !text.as_bytes().contains(&0)
    });
    let shape = if envelope.error == OK {
        envelope.error_message.is_none()
    } else {
        (ERROR_EOF..=ERROR_ENCODING).contains(&envelope.error)
            && envelope.error_message.is_some()
            && envelope.result.is_none()
    };
    texts_cross && shape
}

fn io_error() -> ReadlineError {
    ReadlineError::Io(std::io::Error::new(std::io::ErrorKind::NotFound, "gone"))
}

#[test]
fn the_discriminants_have_their_values() {
    assert_eq!(OK, -1);
    assert_eq!(ERROR_EOF, 0);
    assert_eq!(ERROR_INTERRUPTED, 1);
    assert_eq!(ERROR_UNKNOWN, 2);
    assert_eq!(ERROR_CONFIG, 3);
    assert_eq!(ERROR_ENCODING, 4);
}

#[test]
fn the_default_envelope_is_a_bare_success() {
    let envelope = ReadLineResult::default();
    assert_eq!(envelope.error, -1);
    assert_eq!(envelope.error_message, None);
    assert_eq!(envelope.result, None);
    assert!(well_formed(&envelope));
}

#[test]
fn read_hello_then_end_of_input() {
    let first = handle_readline_result(Ok(String::from("hello")));
    assert_eq!(first.error, OK);
    assert_eq!(first.error_message, None);
    assert_eq!(first.result.as_deref(), Some("hello"));
    assert!(well_formed(&first));
    let second = handle_readline_result(Err(ReadlineError::Eof));
    assert_eq!(second.error, ERROR_EOF);
    assert_eq!(second.error_message.as_deref(), Some("Reached end of file"));
    assert_eq!(second.result, None);
    assert!(well_formed(&second));
}

#[test]
fn an_empty_line_is_still_a_result() {
    let envelope = handle_readline_result(Ok(String::new()));
    assert_eq!(envelope.error, OK);
    assert_eq!(envelope.result.as_deref(), Some(""));
    assert_eq!(envelope.error_message, None);
}

#[test]
fn an_interrupt_has_its_own_discriminant() {
    let envelope = handle_readline_result(Err(ReadlineError::Interrupted));
    assert_eq!(envelope.error, ERROR_INTERRUPTED);
    assert_eq!(envelope.error_message.as_deref(), Some("Received interrupt signal"));
    assert_eq!(envelope.result, None);
    assert!(well_formed(&envelope));
}

#[test]
fn any_other_failure_is_unknown_and_shows_the_rendering() {
    let envelope = handle_readline_result(Err(io_error()));
    assert_eq!(envelope.error, ERROR_UNKNOWN);
    let expected = format!("Unknown error: {:?}", io_error());
    assert_eq!(envelope.error_message.as_deref(), Some(expected.as_str()));
    assert_eq!(envelope.result, None);
    assert!(well_formed(&envelope));
}

#[test]
fn a_line_with_a_zero_byte_is_an_encoding_error() {
    let envelope = handle_readline_result(Ok(String::from("he\0llo")));
    assert_eq!(envelope.error, ERROR_ENCODING);
    assert_eq!(envelope.error_message.as_deref(), Some("Text holds a zero byte"));
    assert_eq!(envelope.result, None);
    assert!(well_formed(&envelope));
    let same = read_success(String::from("\0"));
    assert_eq!(same.error, ERROR_ENCODING);
}

#[test]
fn an_operation_without_payload_succeeds_bare() {
    let envelope = handle_simple_result(Ok(()));
    assert_eq!(envelope.error, OK);
    assert_eq!(envelope.error_message, None);
    assert_eq!(envelope.result, None);
    assert!(well_formed(&envelope));
}

#[test]
fn an_operation_without_payload_fails_as_unknown() {
    let envelope = handle_simple_result(Err(io_error()));
    assert_eq!(envelope.error, ERROR_UNKNOWN);
    let expected = format!("Unknown error: {:?}", io_error());
    assert_eq!(envelope.error_message.as_deref(), Some(expected.as_str()));
    assert_eq!(envelope.result, None);
    assert!(well_formed(&envelope));
}

#[test]
fn an_operation_without_payload_never_reports_end_of_input() {
    let envelope = handle_simple_result(Err(ReadlineError::Eof));
    assert_eq!(envelope.error, ERROR_UNKNOWN);
    assert_eq!(envelope.error_message.as_deref(), Some("Unknown error: Eof"));
    let envelope = handle_simple_result(Err(ReadlineError::Interrupted));
    assert_eq!(envelope.error, ERROR_UNKNOWN);
    assert_eq!(envelope.error_message.as_deref(), Some("Unknown error: Interrupted"));
}

#[test]
fn failure_by_kind() {
    let eof = failure(FailureKind::Eof, "ignored");
    assert_eq!(eof.error, 0);
    assert_eq!(eof.error_message.as_deref(), Some("Reached end of file"));
    let interrupted = failure(FailureKind::Interrupted, "ignored");
    assert_eq!(interrupted.error, 1);
    assert_eq!(interrupted.error_message.as_deref(), Some("Received interrupt signal"));
    let other = failure(FailureKind::Other, "disk on fire");
    assert_eq!(other.error, 2);
    assert_eq!(other.error_message.as_deref(), Some("Unknown error: disk on fire"));
    assert_eq!(other.result, None);
}

#[test]
fn a_rendering_with_a_zero_byte_is_left_out() {
    let other = failure(FailureKind::Other, "bad\0byte");
    assert_eq!(other.error, ERROR_UNKNOWN);
    assert_eq!(other.error_message.as_deref(), Some("Unknown error"));
    assert!(well_formed(&other));
}

#[test]
fn every_encoding_fault_has_its_message() {
    let nul = encoding_failure(EncodingError::InteriorNul);
    assert_eq!(nul.error, ERROR_ENCODING);
    assert_eq!(nul.error_message.as_deref(), Some("Text holds a zero byte"));
    let open = encoding_failure(EncodingError::MissingTerminator);
    assert_eq!(open.error, ERROR_ENCODING);
    assert_eq!(open.error_message.as_deref(), Some("Text is not terminated"));
    let broken = encoding_failure(EncodingError::InvalidUtf8);
    assert_eq!(broken.error, ERROR_ENCODING);
    assert_eq!(broken.error_message.as_deref(), Some("Text is not valid UTF-8"));
    assert!(well_formed(&nul) && well_formed(&open) && well_formed(&broken));
}

#[test]
fn every_configuration_fault_has_its_message() {
    let cases = [
        (ConfigError::HistoryDuplicates(9), "Invalid history_duplicates value"),
        (ConfigError::CompletionType(5), "Invalid completion_type value"),
        (ConfigError::EditMode(2), "Invalid edit_mode value"),
        (ConfigError::BellStyle(3), "Invalid bell_style value"),
        (ConfigError::ColorMode(-1), "Invalid color_mode value"),
        (ConfigError::Behavior(2), "Invalid behavior value"),
    ];
    for (fault, message) in cases {
        let envelope = config_failure(fault);
        assert_eq!(envelope.error, ERROR_CONFIG);
        assert_eq!(envelope.error_message.as_deref(), Some(message));
        assert_eq!(envelope.result, None);
        assert!(well_formed(&envelope));
    }
}

#[test]
fn a_text_argument_is_read_up_to_its_terminator() {
    assert_eq!(text_argument(b"> \0").ok(), Some(String::from("> ")));
    assert_eq!(text_argument(b"path\0junk").ok(), Some(String::from("path")));
    assert_eq!(text_argument(b"\0").ok(), Some(String::new()));
}

#[test]
fn a_text_argument_without_terminator_is_refused() {
    let envelope = text_argument(b"open").unwrap_err();
    assert_eq!(envelope.error, ERROR_ENCODING);
    assert_eq!(envelope.error_message.as_deref(), Some("Text is not terminated"));
    assert!(well_formed(&envelope));
}

#[test]
fn a_text_argument_that_is_not_utf8_is_refused() {
    let envelope = text_argument(&[0x66, 0xff, 0x00]).unwrap_err();
    assert_eq!(envelope.error, ERROR_ENCODING);
    assert_eq!(envelope.error_message.as_deref(), Some("Text is not valid UTF-8"));
    assert!(well_formed(&envelope));
}

#[test]
fn the_message_goes_with_every_error_discriminant() {
    assert_eq!(release_plan(OK, true), Release { message: false, result: true });
    assert_eq!(release_plan(OK, false), Release { message: false, result: false });
    assert_eq!(release_plan(ERROR_EOF, false), Release { message: true, result: false });
    assert_eq!(release_plan(ERROR_INTERRUPTED, false), Release { message: true, result: false });
    assert_eq!(release_plan(ERROR_UNKNOWN, false), Release { message: true, result: false });
    assert_eq!(release_plan(ERROR_ENCODING, true), Release { message: true, result: true });
    assert_eq!(release_plan(-2, false), Release { message: false, result: false });
}

#[test]
fn releasing_an_envelope_releases_what_it_holds() {
    let line = handle_readline_result(Ok(String::from("hello")));
    assert_eq!(free_read_line_result(line), Release { message: false, result: true });
    let eof = handle_readline_result(Err(ReadlineError::Eof));
    assert_eq!(free_read_line_result(eof), Release { message: true, result: false });
    let done = handle_simple_result(Ok(()));
    assert_eq!(free_read_line_result(done), Release { message: false, result: false });
}
