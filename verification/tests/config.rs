use readline4k::config::{build_config, map_config, settings_from, ConfigError, EditorConfig};
use readline4k::session::new_editor_with_config;
use rustyline::config::{
    Behavior, BellStyle, ColorMode, CompletionType, EditMode, HistoryDuplicates,
};

fn record() -> EditorConfig {
    EditorConfig {
        max_history_size: 250,
        history_duplicates: 0,
        history_ignore_space: true,
        completion_type: 1,
        completion_show_all_if_ambiguous: true,
        completion_prompt_limit: 40,
        key_seq_timeout: 120,
        edit_mode: 1,
        auto_add_history: true,
        bell_style: 2,
        color_mode: 1,
        behavior: 1,
        tab_stop: 4,
        indent_size: 3,
        check_cursor_position: true,
        enable_bracketed_paste: false,
        enable_synchronized_output: false,
        enable_signals: true,
    }
}

fn plain() -> EditorConfig {
    EditorConfig {
        max_history_size: 100,
        history_duplicates: 1,
        history_ignore_space: false,
        completion_type: 0,
        completion_show_all_if_ambiguous: false,
        completion_prompt_limit: 100,
        key_seq_timeout: -1,
        edit_mode: 0,
        auto_add_history: false,
        bell_style: 1,
        color_mode: 2,
        behavior: 0,
        tab_stop: 8,
        indent_size: 2,
        check_cursor_position: false,
        enable_bracketed_paste: true,
        enable_synchronized_output: true,
        enable_signals: false,
    }
}

#[test]
fn every_field_reaches_the_engine() {
    let config = map_config(&record()).unwrap();
    assert_eq!(config.max_history_size(), 250);
    assert_eq!(config.history_duplicates(), HistoryDuplicates::AlwaysAdd);
    assert!(config.history_ignore_space());
    assert_eq!(config.completion_type(), CompletionType::List);
    assert!(config.completion_show_all_if_ambiguous());
    assert_eq!(config.completion_prompt_limit(), 40);
    assert_eq!(config.keyseq_timeout(), Some(120));
    assert_eq!(config.edit_mode(), EditMode::Vi);
    assert!(config.auto_add_history());
    assert_eq!(config.bell_style(), BellStyle::Visible);
    assert_eq!(config.color_mode(), ColorMode::Forced);
    assert_eq!(config.behavior(), Behavior::PreferTerm);
    assert_eq!(config.tab_stop(), 4);
    assert_eq!(config.indent_size(), 3);
    assert!(config.check_cursor_position());
    assert!(!config.enable_bracketed_paste());
    assert!(!config.enable_synchronized_output());
    assert!(config.enable_signals());
}

#[test]
fn the_other_code_of_every_field_reaches_the_engine() {
    let config = map_config(&plain()).unwrap();
    assert_eq!(config.max_history_size(), 100);
    assert_eq!(config.history_duplicates(), HistoryDuplicates::IgnoreConsecutive);
    assert!(!config.history_ignore_space());
    assert_eq!(config.completion_type(), CompletionType::Circular);
    assert!(!config.completion_show_all_if_ambiguous());
    assert_eq!(config.completion_prompt_limit(), 100);
    assert_eq!(config.keyseq_timeout(), None);
    assert_eq!(config.edit_mode(), EditMode::Emacs);
    assert!(!config.auto_add_history());
    assert_eq!(config.bell_style(), BellStyle::None);
    assert_eq!(config.color_mode(), ColorMode::Disabled);
    assert_eq!(config.behavior(), Behavior::Stdio);
    assert_eq!(config.tab_stop(), 8);
    assert_eq!(config.indent_size(), 2);
    assert!(!config.check_cursor_position());
    assert!(config.enable_bracketed_paste());
    assert!(config.enable_synchronized_output());
    assert!(!config.enable_signals());
}

#[test]
fn audible_bell_is_code_zero() {
    let mut cfg = plain();
    cfg.bell_style = 0;
    assert_eq!(map_config(&cfg).unwrap().bell_style(), BellStyle::Audible);
}

#[test]
fn completion_type_five_is_rejected() {
    let mut cfg = record();
    cfg.completion_type = 5;
    assert_eq!(map_config(&cfg).err(), Some(ConfigError::CompletionType(5)));
    assert_eq!(settings_from(&cfg).err(), Some(ConfigError::CompletionType(5)));
}

#[test]
fn history_duplicates_out_of_range_is_rejected() {
    let mut cfg = record();
    cfg.history_duplicates = 2;
    assert_eq!(map_config(&cfg).err(), Some(ConfigError::HistoryDuplicates(2)));
    cfg.history_duplicates = -1;
    assert_eq!(map_config(&cfg).err(), Some(ConfigError::HistoryDuplicates(-1)));
}

#[test]
fn edit_mode_out_of_range_is_rejected() {
    let mut cfg = record();
    cfg.edit_mode = 2;
    assert_eq!(map_config(&cfg).err(), Some(ConfigError::EditMode(2)));
}

#[test]
fn bell_style_out_of_range_is_rejected() {
    let mut cfg = record();
    cfg.bell_style = 3;
    assert_eq!(map_config(&cfg).err(), Some(ConfigError::BellStyle(3)));
}

#[test]
fn color_mode_out_of_range_is_rejected() {
    let mut cfg = record();
    cfg.color_mode = 3;
    assert_eq!(map_config(&cfg).err(), Some(ConfigError::ColorMode(3)));
    cfg.color_mode = i32::MIN;
    assert_eq!(map_config(&cfg).err(), Some(ConfigError::ColorMode(i32::MIN)));
}

#[test]
fn behavior_out_of_range_is_rejected() {
    let mut cfg = record();
    cfg.behavior = 2;
    assert_eq!(map_config(&cfg).err(), Some(ConfigError::Behavior(2)));
}

#[test]
fn the_first_fault_in_record_order_is_reported() {
    let mut cfg = record();
    cfg.behavior = 7;
    cfg.bell_style = 9;
    assert_eq!(map_config(&cfg).err(), Some(ConfigError::BellStyle(9)));
    cfg.history_duplicates = 4;
    assert_eq!(map_config(&cfg).err(), Some(ConfigError::HistoryDuplicates(4)));
}

#[test]
fn negative_counts_become_zero() {
    let mut cfg = record();
    cfg.max_history_size = -5;
    cfg.completion_prompt_limit = i32::MIN;
    let config = map_config(&cfg).unwrap();
    assert_eq!(config.max_history_size(), 0);
    assert_eq!(config.completion_prompt_limit(), 0);
}

#[test]
fn zero_and_large_counts_are_kept() {
    let mut cfg = record();
    cfg.max_history_size = 0;
    cfg.completion_prompt_limit = i32::MAX;
    let config = map_config(&cfg).unwrap();
    assert_eq!(config.max_history_size(), 0);
    assert_eq!(config.completion_prompt_limit(), 2147483647);
}

#[test]
fn a_negative_timeout_means_none() {
    let mut cfg = record();
    cfg.key_seq_timeout = -1;
    assert_eq!(map_config(&cfg).unwrap().keyseq_timeout(), None);
    cfg.key_seq_timeout = i32::MIN;
    assert_eq!(map_config(&cfg).unwrap().keyseq_timeout(), None);
}

#[test]
fn a_zero_timeout_is_a_timeout() {
    let mut cfg = record();
    cfg.key_seq_timeout = 0;
    assert_eq!(map_config(&cfg).unwrap().keyseq_timeout(), Some(0));
}

#[test]
fn a_timeout_is_reduced_to_sixteen_bits() {
    let mut cfg = record();
    cfg.key_seq_timeout = 65535;
    assert_eq!(map_config(&cfg).unwrap().keyseq_timeout(), Some(65535));
    cfg.key_seq_timeout = 65536;
    assert_eq!(map_config(&cfg).unwrap().keyseq_timeout(), Some(0));
    cfg.key_seq_timeout = 70000;
    assert_eq!(map_config(&cfg).unwrap().keyseq_timeout(), Some(4464));
}

#[test]
fn the_timeout_of_the_record_outlives_the_edit_mode() {
    let mut cfg = record();
    cfg.edit_mode = 1;
    cfg.key_seq_timeout = -1;
    let config = map_config(&cfg).unwrap();
    assert_eq!(config.edit_mode(), EditMode::Vi);
    assert_eq!(config.keyseq_timeout(), None);
    cfg.edit_mode = 0;
    cfg.key_seq_timeout = 75;
    let config = map_config(&cfg).unwrap();
    assert_eq!(config.edit_mode(), EditMode::Emacs);
    assert_eq!(config.keyseq_timeout(), Some(75));
}

#[test]
fn settings_hold_what_the_record_asks_for() {
    let settings = settings_from(&record()).unwrap();
    assert_eq!(settings.max_history_size, 250);
    assert_eq!(settings.history_duplicates, HistoryDuplicates::AlwaysAdd);
    assert!(settings.history_ignore_space);
    assert_eq!(settings.completion_type, CompletionType::List);
    assert!(settings.completion_show_all_if_ambiguous);
    assert_eq!(settings.completion_prompt_limit, 40);
    assert_eq!(settings.keyseq_timeout, Some(120));
    assert_eq!(settings.edit_mode, EditMode::Vi);
    assert!(settings.auto_add_history);
    assert_eq!(settings.bell_style, BellStyle::Visible);
    assert_eq!(settings.color_mode, ColorMode::Forced);
    assert_eq!(settings.behavior, Behavior::PreferTerm);
    assert_eq!(settings.tab_stop, 4);
    assert_eq!(settings.indent_size, 3);
    assert!(settings.check_cursor_position);
    assert!(!settings.enable_bracketed_paste);
    assert!(!settings.enable_synchronized_output);
    assert!(settings.enable_signals);
}

#[test]
fn a_configuration_holds_the_settings_it_was_built_from() {
    let mut settings = settings_from(&record()).unwrap();
    settings.keyseq_timeout = Some(9);
    settings.edit_mode = EditMode::Emacs;
    settings.tab_stop = 255;
    let config = build_config(&settings);
    assert_eq!(config.keyseq_timeout(), Some(9));
    assert_eq!(config.edit_mode(), EditMode::Emacs);
    assert_eq!(config.tab_stop(), 255);
    assert_eq!(config.max_history_size(), 250);
}

#[test]
fn a_session_without_a_record_gets_the_defaults() {
    let (config, helper) = new_editor_with_config(None, 77).unwrap();
    assert_eq!(config.max_history_size(), 100);
    assert_eq!(config.history_duplicates(), HistoryDuplicates::IgnoreConsecutive);
    assert!(!config.history_ignore_space());
    assert_eq!(config.completion_type(), CompletionType::Circular);
    assert!(!config.completion_show_all_if_ambiguous());
    assert_eq!(config.completion_prompt_limit(), 100);
    assert_eq!(config.keyseq_timeout(), None);
    assert_eq!(config.edit_mode(), EditMode::Emacs);
    assert!(!config.auto_add_history());
    assert_eq!(config.behavior(), Behavior::Stdio);
    assert_eq!(config.tab_stop(), 8);
    assert_eq!(config.indent_size(), 2);
    assert!(!config.check_cursor_position());
    assert!(config.enable_bracketed_paste());
    assert!(config.enable_synchronized_output());
    assert!(!config.enable_signals());
    assert_eq!(helper.k_callback_holder, 77);
    assert_eq!(helper.completer_cb, 0);
}

#[test]
fn a_session_with_a_record_gets_its_settings() {
    let cfg = record();
    let (config, helper) = new_editor_with_config(Some(&cfg), 5).unwrap();
    assert_eq!(config.max_history_size(), 250);
    assert_eq!(config.edit_mode(), EditMode::Vi);
    assert_eq!(config.keyseq_timeout(), Some(120));
    assert_eq!(helper.k_callback_holder, 5);
    assert_eq!(helper.completer_cb, 0);
    assert_eq!(helper.hint_highlighter_cb, 0);
    assert_eq!(helper.prompt_highlighter_cb, 0);
    assert_eq!(helper.candidate_highlighter_cb, 0);
}

#[test]
fn a_session_with_a_bad_record_is_not_made() {
    let mut cfg = record();
    cfg.completion_type = 5;
    let made = new_editor_with_config(Some(&cfg), 5);
    assert_eq!(made.err(), Some(ConfigError::CompletionType(5)));
}
