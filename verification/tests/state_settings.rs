//! Unit tests for the layout state machine and the settings overlay.

use pretty_rusty::settings::{PartialSettings, Settings};
use pretty_rusty::state::State;

#[test]
fn fresh_state_is_flat() {
    let state = State::new(Settings::default());
    assert_eq!(state.indentation(), 0usize);
    assert!(!state.in_chain());
}

#[test]
fn indent_and_dedent_count_levels() {
    let mut state = State::new(Settings::default());
    state.indent();
    state.indent();
    assert_eq!(state.indentation(), 2usize);
    state.dedent();
    assert_eq!(state.indentation(), 1usize);
}

#[test]
fn dedent_saturates_at_zero() {
    let mut state = State::new(Settings::default());
    state.dedent();
    assert_eq!(state.indentation(), 0usize);
}

#[test]
fn chain_is_idempotent() {
    let mut state = State::new(Settings::default());
    state.start_chain();
    state.start_chain();
    assert!(state.in_chain());
    assert_eq!(state.indentation(), 1usize);
    state.exit_chain();
    assert!(!state.in_chain());
    assert_eq!(state.indentation(), 0usize);
    state.exit_chain();
    assert_eq!(state.indentation(), 0usize);
}

#[test]
fn indent_closes_chain() {
    let mut state = State::new(Settings::default());
    state.start_chain();
    state.indent();
    assert!(!state.in_chain());
    assert_eq!(state.indentation(), 2usize);
}

#[test]
fn enter_scope_closes_chain_without_indenting() {
    let mut state = State::new(Settings::default());
    state.start_chain();
    state.enter_scope();
    assert!(!state.in_chain());
    assert_eq!(state.indentation(), 1usize);
}

#[test]
fn save_and_restore_round_trip() {
    let mut state = State::new(Settings::default());
    state.indent();
    state.start_chain();
    let save = state.save();
    state.indent();
    state.exit_chain();
    state.restore(save);
    assert_eq!(state.indentation(), 2usize);
    assert!(state.in_chain());
}

#[test]
fn default_settings_values() {
    let settings = Settings::default();
    assert_eq!(settings.indentation, 0usize);
    assert!(settings.final_newline);
    assert!(!settings.pad_parenthesis);
    assert!(settings.pad_curly_braces);
    assert!(!settings.pad_square_brackets);
    assert!(!settings.pad_angled_brackets);
}

#[test]
fn overwrite_takes_present_fields_only() {
    let mut settings = Settings::default();
    let partial = PartialSettings {
        indentation: Some(4),
        final_newline: None,
        pad_parenthesis: Some(true),
        pad_curly_braces: None,
        pad_square_brackets: None,
        pad_angled_brackets: None,
    };
    settings.overwrite(partial);
    assert_eq!(settings.indentation, 4usize);
    assert!(settings.final_newline);
    assert!(settings.pad_parenthesis);
    assert!(settings.pad_curly_braces);
    assert!(!settings.pad_square_brackets);
    assert!(!settings.pad_angled_brackets);
}

#[test]
fn overwrite_of_empty_document_changes_nothing() {
    let mut settings = Settings::default();
    let partial = PartialSettings {
        indentation: None,
        final_newline: None,
        pad_parenthesis: None,
        pad_curly_braces: None,
        pad_square_brackets: None,
        pad_angled_brackets: None,
    };
    settings.overwrite(partial);
    assert_eq!(settings, Settings::default());
}
