//! The line-editing engine, as far as this library relies on it.
//!
//! Nothing in this file is proved. Each item states what the engine's own
//! source shows, so that the rest of the library can be verified against it.

use crate::config::Settings;
use crate::envelope::FailureKind;
use rustyline::completion::Pair;
use rustyline::config::{
    Behavior, BellStyle, Builder, ColorMode, CompletionType, Config, Configurer, EditMode,
    HistoryDuplicates,
};
use rustyline::error::ReadlineError;
use vstd::prelude::*;

verus! {

/// `rustyline::config::HistoryDuplicates`, with its variants as the engine declares them.
#[verifier::external_type_specification]
pub struct ExHistoryDuplicates(HistoryDuplicates);

/// `rustyline::config::CompletionType`, with its variants as the engine declares them.
#[verifier::external_type_specification]
pub struct ExCompletionType(CompletionType);

/// `rustyline::config::EditMode`, with its variants as the engine declares them.
#[verifier::external_type_specification]
pub struct ExEditMode(EditMode);

/// `rustyline::config::BellStyle`, with its variants as the engine declares them.
#[verifier::external_type_specification]
pub struct ExBellStyle(BellStyle);

/// `rustyline::config::ColorMode`, with its variants as the engine declares them.
#[verifier::external_type_specification]
pub struct ExColorMode(ColorMode);

/// `rustyline::config::Behavior`, with its variants as the engine declares them.
#[verifier::external_type_specification]
pub struct ExBehavior(Behavior);

/// `rustyline::completion::Pair`, with its two public texts.
#[verifier::external_type_specification]
pub struct ExPair(Pair);

/// `rustyline::config::Config`: the engine's configuration, opaque here.
#[verifier::external_type_specification]
#[verifier::external_body]
pub struct ExConfig(Config);

/// `rustyline::config::Builder`: a configuration under construction, opaque here.
#[verifier::external_type_specification]
#[verifier::external_body]
pub struct ExBuilder(Builder);

/// `rustyline::error::ReadlineError`: the engine's error, opaque here.
#[verifier::external_type_specification]
#[verifier::external_body]
pub struct ExReadlineError(ReadlineError);

/// The settings that a builder holds at the moment.
pub uninterp spec fn builder_settings(builder: Builder) -> Settings;

/// The settings that a finished configuration holds.
pub uninterp spec fn config_settings(config: Config) -> Settings;

/// What the engine chooses when the host sets nothing. The bell style is left
/// out: the engine picks it by platform.
pub open spec fn engine_defaults(s: Settings) -> bool {
    &&& s.max_history_size == 100
    &&& s.history_duplicates == HistoryDuplicates::IgnoreConsecutive
    &&& !s.history_ignore_space
    &&& s.completion_type == CompletionType::Circular
    &&& !s.completion_show_all_if_ambiguous
    &&& s.completion_prompt_limit == 100
    &&& s.keyseq_timeout is None
    &&& s.edit_mode == EditMode::Emacs
    &&& !s.auto_add_history
    &&& s.color_mode == ColorMode::Enabled
    &&& s.behavior == Behavior::Stdio
    &&& s.tab_stop == 8
    &&& s.indent_size == 2
    &&& !s.check_cursor_position
    &&& s.enable_bracketed_paste
    &&& s.enable_synchronized_output
    &&& !s.enable_signals
}

/// `Config::builder` starts from the engine's defaults.
pub assume_specification[ Config::builder ]() -> (builder: Builder)
    ensures
        engine_defaults(builder_settings(builder)),
;

/// `Builder::max_history_size` always succeeds and replaces the history capacity.
pub assume_specification[ Builder::max_history_size ](builder: Builder, max_size: usize) -> (r:
    Result<Builder, ReadlineError>)
    ensures
        r is Ok,
        builder_settings(r->Ok_0) == (Settings {
            max_history_size: max_size,
            ..builder_settings(builder)
        }),
;

/// `Builder::history_ignore_dups` always succeeds; `true` selects
/// `IgnoreConsecutive`, `false` selects `AlwaysAdd`.
pub assume_specification[ Builder::history_ignore_dups ](builder: Builder, yes: bool) -> (r: Result<
    Builder,
    ReadlineError,
>)
    ensures
        r is Ok,
        builder_settings(r->Ok_0) == (Settings {
            history_duplicates: if yes {
                HistoryDuplicates::IgnoreConsecutive
            } else {
                HistoryDuplicates::AlwaysAdd
            },
            ..builder_settings(builder)
        }),
;

/// `Builder::history_ignore_space` replaces that one flag.
pub assume_specification[ Builder::history_ignore_space ](builder: Builder, yes: bool) -> (r:
    Builder)
    ensures
        builder_settings(r) == (Settings { history_ignore_space: yes, ..builder_settings(builder) }),
;

/// `Builder::completion_type` replaces the completion type.
pub assume_specification[ Builder::completion_type ](
    builder: Builder,
    completion_type: CompletionType,
) -> (r: Builder)
    ensures
        builder_settings(r) == (Settings { completion_type, ..builder_settings(builder) }),
;

/// `Builder::completion_prompt_limit` replaces that one number.
pub assume_specification[ Builder::completion_prompt_limit ](
    builder: Builder,
    completion_prompt_limit: usize,
) -> (r: Builder)
    ensures
        builder_settings(r) == (Settings { completion_prompt_limit, ..builder_settings(builder) }),
;

/// `Builder::completion_show_all_if_ambiguous` replaces that one flag.
pub assume_specification[ Builder::completion_show_all_if_ambiguous ](
    builder: Builder,
    completion_show_all_if_ambiguous: bool,
) -> (r: Builder)
    ensures
        builder_settings(r) == (Settings {
            completion_show_all_if_ambiguous,
            ..builder_settings(builder)
        }),
;

/// `Builder::keyseq_timeout` replaces the key-sequence timeout.
pub assume_specification[ Builder::keyseq_timeout ](
    builder: Builder,
    keyseq_timeout_ms: Option<u16>,
) -> (r: Builder)
    ensures
        builder_settings(r) == (Settings {
            keyseq_timeout: keyseq_timeout_ms,
            ..builder_settings(builder)
        }),
;

/// `Builder::edit_mode` replaces the edit mode and, with it, the key-sequence
/// timeout: none for Emacs, 500 ms for Vi.
pub assume_specification[ Builder::edit_mode ](builder: Builder, edit_mode: EditMode) -> (r:
    Builder)
    ensures
        builder_settings(r) == (Settings {
            edit_mode,
            keyseq_timeout: if edit_mode == EditMode::Vi {
                Some(500u16)
            } else {
                None
            },
            ..builder_settings(builder)
        }),
;

/// `Builder::auto_add_history` replaces that one flag.
pub assume_specification[ Builder::auto_add_history ](builder: Builder, yes: bool) -> (r: Builder)
    ensures
        builder_settings(r) == (Settings { auto_add_history: yes, ..builder_settings(builder) }),
;

/// `Builder::bell_style` replaces the bell style.
pub assume_specification[ Builder::bell_style ](builder: Builder, bell_style: BellStyle) -> (r:
    Builder)
    ensures
        builder_settings(r) == (Settings { bell_style, ..builder_settings(builder) }),
;

/// `Builder::color_mode` replaces the color mode.
pub assume_specification[ Builder::color_mode ](builder: Builder, color_mode: ColorMode) -> (r:
    Builder)
    ensures
        builder_settings(r) == (Settings { color_mode, ..builder_settings(builder) }),
;

/// `Builder::behavior` replaces the I/O source preference.
pub assume_specification[ Builder::behavior ](builder: Builder, behavior: Behavior) -> (r: Builder)
    ensures
        builder_settings(r) == (Settings { behavior, ..builder_settings(builder) }),
;

/// `Builder::tab_stop` replaces the tab stop.
pub assume_specification[ Builder::tab_stop ](builder: Builder, tab_stop: u8) -> (r: Builder)
    ensures
        builder_settings(r) == (Settings { tab_stop, ..builder_settings(builder) }),
;

/// `Builder::check_cursor_position` replaces that one flag.
pub assume_specification[ Builder::check_cursor_position ](builder: Builder, yes: bool) -> (r:
    Builder)
    ensures
        builder_settings(r) == (Settings { check_cursor_position: yes, ..builder_settings(builder) }),
;

/// `Builder::indent_size` replaces the indent size.
pub assume_specification[ Builder::indent_size ](builder: Builder, indent_size: u8) -> (r: Builder)
    ensures
        builder_settings(r) == (Settings { indent_size, ..builder_settings(builder) }),
;

/// `Builder::bracketed_paste` replaces that one flag.
pub assume_specification[ Builder::bracketed_paste ](builder: Builder, enabled: bool) -> (r:
    Builder)
    ensures
        builder_settings(r) == (Settings {
            enable_bracketed_paste: enabled,
            ..builder_settings(builder)
        }),
;

/// `Builder::enable_signals` replaces that one flag.
pub assume_specification[ Builder::enable_signals ](builder: Builder, enable_signals: bool) -> (r:
    Builder)
    ensures
        builder_settings(r) == (Settings { enable_signals, ..builder_settings(builder) }),
;

/// `Configurer::enable_synchronized_output`, which the builder has from the
/// trait alone, replaces that one flag.
#[verifier::external_body]
pub(crate) fn synchronized_output(builder: Builder, enabled: bool) -> (r: Builder)
    ensures
        builder_settings(r) == (Settings {
            enable_synchronized_output: enabled,
            ..builder_settings(builder)
        }),
{
    let mut builder = builder;
    builder.enable_synchronized_output(enabled);
    builder
}

/// `Builder::build` hands out what the builder holds.
pub assume_specification[ Builder::build ](builder: Builder) -> (config: Config)
    ensures
        config_settings(config) == builder_settings(builder),
;

/// How the engine's error is classified: end of input, an interrupt, or
/// anything else.
pub uninterp spec fn failure_kind(err: ReadlineError) -> FailureKind;

/// Tells the variants of `ReadlineError` apart: `Eof`, `Interrupted`, and
/// all the others as one.
#[verifier::external_body]
pub(crate) fn kind_of(err: &ReadlineError) -> (kind: FailureKind)
    ensures
        kind == failure_kind(*err),
{
    match err {
        ReadlineError::Eof => FailureKind::Eof,
        ReadlineError::Interrupted => FailureKind::Interrupted,
        _ => FailureKind::Other,
    }
}

/// The `Debug` rendering of a `ReadlineError`. Nothing is claimed of it: for
/// an I/O error it holds what the operating system says.
#[verifier::external_body]
pub(crate) fn debug_text(err: &ReadlineError) -> (text: String) {
    format!("{:?}", err)
}

} // verus!
