//! The configuration record of the host and what the engine makes of it.

use crate::engine::{config_settings, synchronized_output};
use rustyline::config::{
    Behavior, BellStyle, ColorMode, CompletionType, Config, EditMode, HistoryDuplicates,
};
use vstd::prelude::*;

verus! {

/// The flat record that the host fills in: integers and booleans only.
/// Each enumerated field holds a small code, listed beside it.
#[derive(Clone, Copy, Debug)]
pub struct EditorConfig {
    pub max_history_size: i32,
    /// 0 = always add, 1 = ignore consecutive duplicates
    pub history_duplicates: i32,
    pub history_ignore_space: bool,
    /// 0 = circular, 1 = list
    pub completion_type: i32,
    pub completion_show_all_if_ambiguous: bool,
    pub completion_prompt_limit: i32,
    /// milliseconds; a negative value means no timeout
    pub key_seq_timeout: i32,
    /// 0 = Emacs, 1 = Vi
    pub edit_mode: i32,
    pub auto_add_history: bool,
    /// 0 = audible, 1 = none, 2 = visible
    pub bell_style: i32,
    /// 0 = enabled, 1 = forced, 2 = disabled
    pub color_mode: i32,
    /// 0 = standard streams, 1 = prefer a terminal
    pub behavior: i32,
    pub tab_stop: u8,
    pub indent_size: u8,
    pub check_cursor_position: bool,
    pub enable_bracketed_paste: bool,
    pub enable_synchronized_output: bool,
    pub enable_signals: bool,
}

/// What an engine configuration holds, field by field.
#[derive(Clone, Copy, Debug)]
pub struct Settings {
    pub max_history_size: usize,
    pub history_duplicates: HistoryDuplicates,
    pub history_ignore_space: bool,
    pub completion_type: CompletionType,
    pub completion_show_all_if_ambiguous: bool,
    pub completion_prompt_limit: usize,
    pub keyseq_timeout: Option<u16>,
    pub edit_mode: EditMode,
    pub auto_add_history: bool,
    pub bell_style: BellStyle,
    pub color_mode: ColorMode,
    pub behavior: Behavior,
    pub tab_stop: u8,
    pub indent_size: u8,
    pub check_cursor_position: bool,
    pub enable_bracketed_paste: bool,
    pub enable_synchronized_output: bool,
    pub enable_signals: bool,
}

/// An enumerated field of the record held a code outside its closed set.
/// Each variant names the field and carries the code that was found.
#[derive(Clone, Copy, Debug, PartialEq, Eq, Structural)]
pub enum ConfigError {
    HistoryDuplicates(i32),
    CompletionType(i32),
    EditMode(i32),
    BellStyle(i32),
    ColorMode(i32),
    Behavior(i32),
}

pub open spec fn history_duplicates_of(code: i32) -> Option<HistoryDuplicates> {
    if code == 0 {
        Some(HistoryDuplicates::AlwaysAdd)
    } else if code == 1 {
        Some(HistoryDuplicates::IgnoreConsecutive)
    } else {
        None
    }
}

pub open spec fn completion_type_of(code: i32) -> Option<CompletionType> {
    if code == 0 {
        Some(CompletionType::Circular)
    } else if code == 1 {
        Some(CompletionType::List)
    } else {
        None
    }
}

pub open spec fn edit_mode_of(code: i32) -> Option<EditMode> {
    if code == 0 {
        Some(EditMode::Emacs)
    } else if code == 1 {
        Some(EditMode::Vi)
    } else {
        None
    }
}

pub open spec fn bell_style_of(code: i32) -> Option<BellStyle> {
    if code == 0 {
        Some(BellStyle::Audible)
    } else if code == 1 {
        Some(BellStyle::None)
    } else if code == 2 {
        Some(BellStyle::Visible)
    } else {
        None
    }
}

pub open spec fn color_mode_of(code: i32) -> Option<ColorMode> {
    if code == 0 {
        Some(ColorMode::Enabled)
    } else if code == 1 {
        Some(ColorMode::Forced)
    } else if code == 2 {
        Some(ColorMode::Disabled)
    } else {
        None
    }
}

pub open spec fn behavior_of(code: i32) -> Option<Behavior> {
    if code == 0 {
        Some(Behavior::Stdio)
    } else if code == 1 {
        Some(Behavior::PreferTerm)
    } else {
        None
    }
}

/// A count that the host may give as a negative number: anything below zero
/// counts as zero.
pub open spec fn count_of(n: i32) -> usize {
    if n > 0 {
        n as usize
    } else {
        0
    }
}

/// The key-sequence timeout: none for a negative number, else the number of
/// milliseconds, reduced to 16 bits.
pub open spec fn timeout_of(ms: i32) -> Option<u16> {
    if ms >= 0 {
        Some((ms % 65536) as u16)
    } else {
        None
    }
}

/// Every enumerated field of the record holds a code of its closed set.
pub open spec fn valid_record(cfg: EditorConfig) -> bool {
    &&& history_duplicates_of(cfg.history_duplicates) is Some
    &&& completion_type_of(cfg.completion_type) is Some
    &&& edit_mode_of(cfg.edit_mode) is Some
    &&& bell_style_of(cfg.bell_style) is Some
    &&& color_mode_of(cfg.color_mode) is Some
    &&& behavior_of(cfg.behavior) is Some
}

/// The first enumerated field, in the record's order, whose code is out of range.
pub open spec fn first_fault(cfg: EditorConfig) -> Option<ConfigError> {
    if history_duplicates_of(cfg.history_duplicates) is None {
        Some(ConfigError::HistoryDuplicates(cfg.history_duplicates))
    } else if completion_type_of(cfg.completion_type) is None {
        Some(ConfigError::CompletionType(cfg.completion_type))
    } else if edit_mode_of(cfg.edit_mode) is None {
        Some(ConfigError::EditMode(cfg.edit_mode))
    } else if bell_style_of(cfg.bell_style) is None {
        Some(ConfigError::BellStyle(cfg.bell_style))
    } else if color_mode_of(cfg.color_mode) is None {
        Some(ConfigError::ColorMode(cfg.color_mode))
    } else if behavior_of(cfg.behavior) is None {
        Some(ConfigError::Behavior(cfg.behavior))
    } else {
        None
    }
}

/// The settings that a valid record asks for.
pub open spec fn settings_of(cfg: EditorConfig) -> Settings
    recommends
        valid_record(cfg),
{
    Settings {
        max_history_size: count_of(cfg.max_history_size),
        history_duplicates: history_duplicates_of(cfg.history_duplicates).unwrap(),
        history_ignore_space: cfg.history_ignore_space,
        completion_type: completion_type_of(cfg.completion_type).unwrap(),
        completion_show_all_if_ambiguous: cfg.completion_show_all_if_ambiguous,
        completion_prompt_limit: count_of(cfg.completion_prompt_limit),
        keyseq_timeout: timeout_of(cfg.key_seq_timeout),
        edit_mode: edit_mode_of(cfg.edit_mode).unwrap(),
        auto_add_history: cfg.auto_add_history,
        bell_style: bell_style_of(cfg.bell_style).unwrap(),
        color_mode: color_mode_of(cfg.color_mode).unwrap(),
        behavior: behavior_of(cfg.behavior).unwrap(),
        tab_stop: cfg.tab_stop,
        indent_size: cfg.indent_size,
        check_cursor_position: cfg.check_cursor_position,
        enable_bracketed_paste: cfg.enable_bracketed_paste,
        enable_synchronized_output: cfg.enable_synchronized_output,
        enable_signals: cfg.enable_signals,
    }
}

/// What a record yields: its settings, or its first fault.
pub open spec fn checked_settings(cfg: EditorConfig) -> Result<Settings, ConfigError> {
    match first_fault(cfg) {
        Some(fault) => Err(fault),
        None => Ok(settings_of(cfg)),
    }
}

fn history_duplicates_from(code: i32) -> (r: Option<HistoryDuplicates>)
    ensures
        r == history_duplicates_of(code),
{
    match code {
        0 => Some(HistoryDuplicates::AlwaysAdd),
        1 => Some(HistoryDuplicates::IgnoreConsecutive),
        _ => None,
    }
}

fn completion_type_from(code: i32) -> (r: Option<CompletionType>)
    ensures
        r == completion_type_of(code),
{
    match code {
        0 => Some(CompletionType::Circular),
        1 => Some(CompletionType::List),
        _ => None,
    }
}

fn edit_mode_from(code: i32) -> (r: Option<EditMode>)
    ensures
        r == edit_mode_of(code),
{
    match code {
        0 => Some(EditMode::Emacs),
        1 => Some(EditMode::Vi),
        _ => None,
    }
}

fn bell_style_from(code: i32) -> (r: Option<BellStyle>)
    ensures
        r == bell_style_of(code),
{
    match code {
        0 => Some(BellStyle::Audible),
        1 => Some(BellStyle::None),
        2 => Some(BellStyle::Visible),
        _ => None,
    }
}

fn color_mode_from(code: i32) -> (r: Option<ColorMode>)
    ensures
        r == color_mode_of(code),
{
    match code {
        0 => Some(ColorMode::Enabled),
        1 => Some(ColorMode::Forced),
        2 => Some(ColorMode::Disabled),
        _ => None,
    }
}

fn behavior_from(code: i32) -> (r: Option<Behavior>)
    ensures
        r == behavior_of(code),
{
    match code {
        0 => Some(Behavior::Stdio),
        1 => Some(Behavior::PreferTerm),
        _ => None,
    }
}

fn count_from(n: i32) -> (r: usize)
    ensures
        r == count_of(n),
{
    if n > 0 {
        n as usize
    } else {
        0
    }
}

fn timeout_from(ms: i32) -> (r: Option<u16>)
    ensures
        r == timeout_of(ms),
{
    if ms >= 0 {
        Some((ms % 65536) as u16)
    } else {
        None
    }
}

/// Checks the record's enumerated fields in their order and works out the
/// settings it asks for. A code outside its closed set is an error, never a
/// silent default.
pub fn settings_from(cfg: &EditorConfig) -> (r: Result<Settings, ConfigError>)
    ensures
        r == checked_settings(*cfg),
        r is Ok <==> valid_record(*cfg),
{
    let history_duplicates = match history_duplicates_from(cfg.history_duplicates) {
        Some(v) => v,
        None => { return Err(ConfigError::HistoryDuplicates(cfg.history_duplicates)); },
    };
    let completion_type = match completion_type_from(cfg.completion_type) {
        Some(v) => v,
        None => { return Err(ConfigError::CompletionType(cfg.completion_type)); },
    };
    let edit_mode = match edit_mode_from(cfg.edit_mode) {
        Some(v) => v,
        None => { return Err(ConfigError::EditMode(cfg.edit_mode)); },
    };
    let bell_style = match bell_style_from(cfg.bell_style) {
        Some(v) => v,
        None => { return Err(ConfigError::BellStyle(cfg.bell_style)); },
    };
    let color_mode = match color_mode_from(cfg.color_mode) {
        Some(v) => v,
        None => { return Err(ConfigError::ColorMode(cfg.color_mode)); },
    };
    let behavior = match behavior_from(cfg.behavior) {
        Some(v) => v,
        None => { return Err(ConfigError::Behavior(cfg.behavior)); },
    };
    Ok(
        Settings {
            max_history_size: count_from(cfg.max_history_size),
            history_duplicates,
            history_ignore_space: cfg.history_ignore_space,
            completion_type,
            completion_show_all_if_ambiguous: cfg.completion_show_all_if_ambiguous,
            completion_prompt_limit: count_from(cfg.completion_prompt_limit),
            keyseq_timeout: timeout_from(cfg.key_seq_timeout),
            edit_mode,
            auto_add_history: cfg.auto_add_history,
            bell_style,
            color_mode,
            behavior,
            tab_stop: cfg.tab_stop,
            indent_size: cfg.indent_size,
            check_cursor_position: cfg.check_cursor_position,
            enable_bracketed_paste: cfg.enable_bracketed_paste,
            enable_synchronized_output: cfg.enable_synchronized_output,
            enable_signals: cfg.enable_signals,
        },
    )
}

/// Builds the engine configuration that holds exactly the given settings.
///
/// The edit mode is set before the key-sequence timeout: the engine resets
/// the timeout whenever the edit mode is set.
pub fn build_config(settings: &Settings) -> (config: Config)
    ensures
        config_settings(config) == *settings,
{
    let ignore_dups = match settings.history_duplicates {
        HistoryDuplicates::AlwaysAdd => false,
        HistoryDuplicates::IgnoreConsecutive => true,
    };
    let builder = Config::builder();
    let builder = builder.max_history_size(settings.max_history_size).unwrap();
    let builder = builder.history_ignore_dups(ignore_dups).unwrap();
    let builder = builder.history_ignore_space(settings.history_ignore_space);
    let builder = builder.completion_type(settings.completion_type);
    let builder = builder.completion_show_all_if_ambiguous(
        settings.completion_show_all_if_ambiguous,
    );
    let builder = builder.completion_prompt_limit(settings.completion_prompt_limit);
    let builder = builder.edit_mode(settings.edit_mode);
    let builder = builder.keyseq_timeout(settings.keyseq_timeout);
    let builder = builder.auto_add_history(settings.auto_add_history);
    let builder = builder.bell_style(settings.bell_style);
    let builder = builder.color_mode(settings.color_mode);
    let builder = builder.behavior(settings.behavior);
    let builder = builder.tab_stop(settings.tab_stop);
    let builder = builder.indent_size(settings.indent_size);
    let builder = builder.check_cursor_position(settings.check_cursor_position);
    let builder = builder.bracketed_paste(settings.enable_bracketed_paste);
    let builder = synchronized_output(builder, settings.enable_synchronized_output);
    let builder = builder.enable_signals(settings.enable_signals);
    builder.build()
}

/// Turns the host's record into an engine configuration.
///
/// Succeeds exactly on the valid records, and then the configuration holds
/// the settings the record asks for. Otherwise the error names the first
/// field, in the record's order, whose code is out of range.
pub fn map_config(cfg: &EditorConfig) -> (r: Result<Config, ConfigError>)
    ensures
        r is Ok <==> valid_record(*cfg),
        r matches Ok(config) ==> config_settings(config) == settings_of(*cfg),
        r matches Err(fault) ==> first_fault(*cfg) == Some(fault),
{
    match settings_from(cfg) {
        Ok(settings) => Ok(build_config(&settings)),
        Err(fault) => Err(fault),
    }
}

} // verus!
