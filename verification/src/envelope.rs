//! The result envelope: the one value that every operation hands back to the
//! host.
//!
//! An envelope holds a discriminant and up to two texts. Which texts are
//! present follows from the discriminant, and every text in an envelope can
//! cross the boundary: it holds no zero byte.

use crate::config::ConfigError;
use crate::engine::{debug_text, failure_kind, kind_of};
use crate::marshal::{c_chars_to_str, foreign_text, has_nul, nul_free, EncodingError};
use rustyline::error::ReadlineError;
use vstd::prelude::*;
use vstd::string::StringExecFns;
use vstd::utf8::{encode_utf8, is_ascii_chars, is_ascii_chars_encode_utf8};

verus! {

/// The operation succeeded.
pub const OK: i32 = -1;

/// The input stream is exhausted.
pub const ERROR_EOF: i32 = 0;

/// The user interrupted the read.
pub const ERROR_INTERRUPTED: i32 = 1;

/// The engine failed in some other way.
pub const ERROR_UNKNOWN: i32 = 2;

/// The configuration record was not valid.
pub const ERROR_CONFIG: i32 = 3;

/// A text could not cross the boundary.
pub const ERROR_ENCODING: i32 = 4;

/// How a failure of the engine is classified.
#[derive(Clone, Copy, Debug, PartialEq, Eq, Structural)]
pub enum FailureKind {
    Eof,
    Interrupted,
    Other,
}

/// The envelope as the host receives it.
#[derive(Debug)]
pub struct ReadLineResult {
    pub error: i32,
    pub error_message: Option<String>,
    pub result: Option<String>,
}

/// The mathematical content of an envelope.
pub struct Envelope {
    pub error: i32,
    pub error_message: Option<Seq<char>>,
    pub result: Option<Seq<char>>,
}

/// Which of an envelope's texts its release gives back.
#[derive(Clone, Copy, Debug, PartialEq, Eq, Structural)]
pub struct Release {
    pub message: bool,
    pub result: bool,
}

/// The text can cross the boundary: its bytes hold no zero.
pub open spec fn crosses(text: Seq<char>) -> bool {
    nul_free(encode_utf8(text))
}

impl Envelope {
    /// The invariant of every envelope. Success carries no message; an error
    /// is one of the closed set, carries a message and no result; and every
    /// text present can cross the boundary.
    pub open spec fn wf(self) -> bool {
        &&& self.error == OK ==> self.error_message is None
        &&& self.error != OK ==> {
            &&& ERROR_EOF <= self.error <= ERROR_ENCODING
            &&& self.error_message is Some
            &&& self.result is None
        }
        &&& self.error_message matches Some(text) ==> crosses(text)
        &&& self.result matches Some(text) ==> crosses(text)
    }
}

impl View for ReadLineResult {
    type V = Envelope;

    open spec fn view(&self) -> Envelope {
        Envelope {
            error: self.error,
            error_message: match self.error_message {
                Some(text) => Some(text@),
                None => None,
            },
            result: match self.result {
                Some(text) => Some(text@),
                None => None,
            },
        }
    }
}

/// Success without a payload.
pub open spec fn done_envelope() -> Envelope {
    Envelope { error: OK, error_message: None, result: None }
}

/// Success with the line that was read.
pub open spec fn success_envelope(line: Seq<char>) -> Envelope {
    Envelope { error: OK, error_message: None, result: Some(line) }
}

/// An error with its message.
pub open spec fn error_envelope(error: i32, message: Seq<char>) -> Envelope {
    Envelope { error, error_message: Some(message), result: None }
}

/// The message of an unclassified failure: a fixed prefix and the engine's
/// own rendering, or the bare prefix words where that could not cross.
pub open spec fn unknown_message(detail: Seq<char>) -> Seq<char> {
    if crosses("Unknown error: "@ + detail) {
        "Unknown error: "@ + detail
    } else {
        "Unknown error"@
    }
}

/// The envelope of an engine failure of the given kind. Only an
/// unclassified failure shows the engine's rendering.
pub open spec fn failure_envelope(kind: FailureKind, detail: Seq<char>) -> Envelope {
    match kind {
        FailureKind::Eof => error_envelope(ERROR_EOF, "Reached end of file"@),
        FailureKind::Interrupted => error_envelope(ERROR_INTERRUPTED, "Received interrupt signal"@),
        FailureKind::Other => error_envelope(ERROR_UNKNOWN, unknown_message(detail)),
    }
}

/// The message that tells the host why a text could not cross.
pub open spec fn encoding_message(fault: EncodingError) -> Seq<char> {
    match fault {
        EncodingError::InteriorNul => "Text holds a zero byte"@,
        EncodingError::MissingTerminator => "Text is not terminated"@,
        EncodingError::InvalidUtf8 => "Text is not valid UTF-8"@,
    }
}

/// The message that names the field of the record that was out of range.
pub open spec fn config_message(fault: ConfigError) -> Seq<char> {
    match fault {
        ConfigError::HistoryDuplicates(_) => "Invalid history_duplicates value"@,
        ConfigError::CompletionType(_) => "Invalid completion_type value"@,
        ConfigError::EditMode(_) => "Invalid edit_mode value"@,
        ConfigError::BellStyle(_) => "Invalid bell_style value"@,
        ConfigError::ColorMode(_) => "Invalid color_mode value"@,
        ConfigError::Behavior(_) => "Invalid behavior value"@,
    }
}

/// The envelope of a line that was read: success with the line, or an
/// encoding error where the line holds a zero byte.
pub open spec fn line_envelope(line: Seq<char>) -> Envelope {
    if crosses(line) {
        success_envelope(line)
    } else {
        error_envelope(ERROR_ENCODING, encoding_message(EncodingError::InteriorNul))
    }
}

/// What the release of an envelope gives back: the message for every error
/// discriminant, the result whenever it is present.
pub open spec fn release_of(error: i32, result_present: bool) -> Release {
    Release { message: error >= 0, result: result_present }
}

/// A text of ASCII characters other than NUL can cross the boundary.
pub proof fn lemma_plain_text_crosses(text: Seq<char>)
    requires
        forall|i: int| 0 <= i < text.len() ==> '\u{1}' <= #[trigger] text[i] <= '\u{7f}',
    ensures
        crosses(text),
{
    assert(is_ascii_chars(text));
    is_ascii_chars_encode_utf8(text);
    assert forall|i: int| 0 <= i < encode_utf8(text).len() implies encode_utf8(text)[i]
        != 0u8 by {
        assert('\u{1}' <= text[i]);
        assert(text[i] as u8 == encode_utf8(text)[i]);
    }
}

/// Every fixed message of this module can cross the boundary.
pub proof fn lemma_fixed_messages_cross()
    ensures
        crosses("Reached end of file"@),
        crosses("Received interrupt signal"@),
        crosses("Unknown error"@),
        forall|fault: EncodingError| crosses(#[trigger] encoding_message(fault)),
        forall|fault: ConfigError| crosses(#[trigger] config_message(fault)),
{
    reveal_strlit("Reached end of file");
    reveal_strlit("Received interrupt signal");
    reveal_strlit("Unknown error");
    reveal_strlit("Text holds a zero byte");
    reveal_strlit("Text is not terminated");
    reveal_strlit("Text is not valid UTF-8");
    reveal_strlit("Invalid history_duplicates value");
    reveal_strlit("Invalid completion_type value");
    reveal_strlit("Invalid edit_mode value");
    reveal_strlit("Invalid bell_style value");
    reveal_strlit("Invalid color_mode value");
    reveal_strlit("Invalid behavior value");
    lemma_plain_text_crosses("Reached end of file"@);
    lemma_plain_text_crosses("Received interrupt signal"@);
    lemma_plain_text_crosses("Unknown error"@);
    lemma_plain_text_crosses("Text holds a zero byte"@);
    lemma_plain_text_crosses("Text is not terminated"@);
    lemma_plain_text_crosses("Text is not valid UTF-8"@);
    lemma_plain_text_crosses("Invalid history_duplicates value"@);
    lemma_plain_text_crosses("Invalid completion_type value"@);
    lemma_plain_text_crosses("Invalid edit_mode value"@);
    lemma_plain_text_crosses("Invalid bell_style value"@);
    lemma_plain_text_crosses("Invalid color_mode value"@);
    lemma_plain_text_crosses("Invalid behavior value"@);
}

/// Every envelope that this module describes keeps the invariant: success
/// carries no message, an error carries a message and no result.
pub proof fn lemma_envelopes_are_well_formed(
    line: Seq<char>,
    kind: FailureKind,
    detail: Seq<char>,
    encoding: EncodingError,
    config: ConfigError,
)
    ensures
        done_envelope().wf(),
        line_envelope(line).wf(),
        failure_envelope(kind, detail).wf(),
        error_envelope(ERROR_ENCODING, encoding_message(encoding)).wf(),
        error_envelope(ERROR_CONFIG, config_message(config)).wf(),
{
    lemma_fixed_messages_cross();
}

/// For a well-formed envelope the release gives back exactly the texts that
/// are present: none is left behind, and none is released that is absent.
pub proof fn lemma_release_is_exact(envelope: Envelope)
    requires
        envelope.wf(),
    ensures
        release_of(envelope.error, envelope.result is Some).message == (envelope.error_message
            is Some),
        release_of(envelope.error, envelope.result is Some).result == (envelope.result is Some),
{
}

impl Default for ReadLineResult {
    /// Success without a payload.
    fn default() -> (r: Self)
        ensures
            r@ == done_envelope(),
            r@.wf(),
    {
        ReadLineResult { error: OK, error_message: None, result: None }
    }
}

/// The envelope of an error with a fixed or checked message.
fn error_result(error: i32, message: String) -> (r: ReadLineResult)
    ensures
        r@ == error_envelope(error, message@),
{
    ReadLineResult { error, error_message: Some(message), result: None }
}

/// The envelope that tells the host that a text could not cross.
pub fn encoding_failure(fault: EncodingError) -> (r: ReadLineResult)
    ensures
        r@ == error_envelope(ERROR_ENCODING, encoding_message(fault)),
        r@.wf(),
{
    proof {
        lemma_fixed_messages_cross();
    }
    let message = match fault {
        EncodingError::InteriorNul => String::from_str("Text holds a zero byte"),
        EncodingError::MissingTerminator => String::from_str("Text is not terminated"),
        EncodingError::InvalidUtf8 => String::from_str("Text is not valid UTF-8"),
    };
    error_result(ERROR_ENCODING, message)
}

/// The envelope that tells the host which field of its record was out of
/// range.
pub fn config_failure(fault: ConfigError) -> (r: ReadLineResult)
    ensures
        r@ == error_envelope(ERROR_CONFIG, config_message(fault)),
        r@.wf(),
{
    proof {
        lemma_fixed_messages_cross();
    }
    let message = match fault {
        ConfigError::HistoryDuplicates(_) => String::from_str("Invalid history_duplicates value"),
        ConfigError::CompletionType(_) => String::from_str("Invalid completion_type value"),
        ConfigError::EditMode(_) => String::from_str("Invalid edit_mode value"),
        ConfigError::BellStyle(_) => String::from_str("Invalid bell_style value"),
        ConfigError::ColorMode(_) => String::from_str("Invalid color_mode value"),
        ConfigError::Behavior(_) => String::from_str("Invalid behavior value"),
    };
    error_result(ERROR_CONFIG, message)
}

/// The envelope of a line that was read.
pub fn read_success(line: String) -> (r: ReadLineResult)
    ensures
        r@ == line_envelope(line@),
        r@.wf(),
{
    if has_nul(line.as_str()) {
        encoding_failure(EncodingError::InteriorNul)
    } else {
        ReadLineResult { error: OK, error_message: None, result: Some(line) }
    }
}

/// The envelope of an engine failure, given its kind and the engine's own
/// rendering of it.
pub fn failure(kind: FailureKind, detail: &str) -> (r: ReadLineResult)
    ensures
        r@ == failure_envelope(kind, detail@),
        r@.wf(),
{
    proof {
        lemma_fixed_messages_cross();
    }
    match kind {
        FailureKind::Eof => error_result(ERROR_EOF, String::from_str("Reached end of file")),
        FailureKind::Interrupted => error_result(
            ERROR_INTERRUPTED,
            String::from_str("Received interrupt signal"),
        ),
        FailureKind::Other => {
            let message = String::from_str("Unknown error: ").concat(detail);
            if has_nul(message.as_str()) {
                error_result(ERROR_UNKNOWN, String::from_str("Unknown error"))
            } else {
                error_result(ERROR_UNKNOWN, message)
            }
        },
    }
}

/// The envelope of a read: the line, end of input, an interrupt, or an
/// unclassified failure with the engine's rendering of it.
///
/// A success always carries its result, an error never does.
pub fn handle_readline_result(readline: Result<String, ReadlineError>) -> (r: ReadLineResult)
    ensures
        r@.wf(),
        r@.error == OK ==> r@.result is Some,
        readline matches Ok(line) ==> r@ == line_envelope(line@),
        readline matches Err(err) ==> exists|detail: Seq<char>|
            r@ == #[trigger] failure_envelope(failure_kind(err), detail),
{
    match readline {
        Ok(line) => read_success(line),
        Err(err) => {
            let kind = kind_of(&err);
            let detail = debug_text(&err);
            let r = failure(kind, detail.as_str());
            assert(r@ == failure_envelope(failure_kind(err), detail@));
            r
        },
    }
}

/// The envelope of an operation without a payload: success, or an
/// unclassified failure with the engine's rendering of it, whatever its kind.
///
/// Such an envelope never carries a result.
pub fn handle_simple_result(res: Result<(), ReadlineError>) -> (r: ReadLineResult)
    ensures
        r@.wf(),
        r@.result is None,
        res is Ok ==> r@ == done_envelope(),
        res is Err ==> exists|detail: Seq<char>|
            r@ == #[trigger] failure_envelope(FailureKind::Other, detail),
{
    match res {
        Ok(_) => ReadLineResult::default(),
        Err(err) => {
            let detail = debug_text(&err);
            let r = failure(FailureKind::Other, detail.as_str());
            assert(r@ == failure_envelope(FailureKind::Other, detail@));
            r
        },
    }
}

/// Reads a text argument out of a foreign buffer, or says in an envelope why
/// it could not be read.
pub fn text_argument(c_chars: &[u8]) -> (r: Result<String, ReadLineResult>)
    ensures
        r matches Ok(text) ==> foreign_text(c_chars@) == Ok::<Seq<char>, EncodingError>(text@),
        r matches Err(envelope) ==> {
            &&& foreign_text(c_chars@) matches Err(fault)
            &&& envelope@ == error_envelope(ERROR_ENCODING, encoding_message(fault))
            &&& envelope@.wf()
        },
{
    match c_chars_to_str(c_chars) {
        Ok(text) => Ok(text),
        Err(fault) => Err(encoding_failure(fault)),
    }
}

/// Decides which texts of an envelope are to be released, from its
/// discriminant and from whether it holds a result: the message for every
/// error discriminant, the result whenever it is present.
pub fn release_plan(error: i32, result_present: bool) -> (plan: Release)
    ensures
        plan == release_of(error, result_present),
{
    Release { message: error >= 0, result: result_present }
}

/// Releases an envelope and tells which of its texts went with it.
pub fn free_read_line_result(envelope: ReadLineResult) -> (plan: Release)
    ensures
        plan == release_of(envelope.error, envelope.result is Some),
        envelope@.wf() ==> plan.message == (envelope.error_message is Some),
{
    release_plan(envelope.error, envelope.result.is_some())
}

} // verus!
