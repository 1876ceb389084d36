//! Unit tests for the directive sink: priority merge, the blank-line cap,
//! directive translation, and indentation emission.

use pretty_rusty::output::{Output, Priority, Whitespace};
use pretty_rusty::settings::Settings;
use pretty_rusty::state::State;

fn plain() -> Settings {
    let mut s = Settings::default();
    s.final_newline = false;
    s
}

#[test]
fn stronger_request_wins_after_weaker() {
    let state = State::new(plain());
    let mut output = Output::new();
    output.text("a", &state);
    output.whitespace(Whitespace::LineBreak, Priority::Low);
    output.whitespace(Whitespace::Space, Priority::Normal);
    output.text("b", &state);
    assert_eq!(output.finish(&state), "a b");
}

#[test]
fn stronger_request_wins_before_weaker() {
    let state = State::new(plain());
    let mut output = Output::new();
    output.text("a", &state);
    output.whitespace(Whitespace::Space, Priority::Normal);
    output.whitespace(Whitespace::LineBreak, Priority::Low);
    output.text("b", &state);
    assert_eq!(output.finish(&state), "a b");
}

#[test]
fn later_request_wins_at_equal_priority() {
    let state = State::new(plain());
    let mut output = Output::new();
    output.text("a", &state);
    output.whitespace(Whitespace::LineBreak, Priority::Normal);
    output.whitespace(Whitespace::Space, Priority::Normal);
    output.text("b", &state);
    assert_eq!(output.finish(&state), "a b");
}

#[test]
fn nothing_overrides_guaranteed() {
    let state = State::new(plain());
    let mut output = Output::new();
    output.text("a", &state);
    output.whitespace(Whitespace::LineBreaks(2), Priority::High);
    assert_eq!(output.finish(&state), "a");
}

#[test]
fn guaranteed_final_newline_overrides_pending() {
    let mut settings = Settings::default();
    settings.final_newline = true;
    let state = State::new(settings);
    let mut output = Output::new();
    output.text("a", &state);
    output.whitespace(Whitespace::LineBreaks(2), Priority::High);
    assert_eq!(output.finish(&state), "a\n");
}

#[test]
fn realized_line_breaks_are_capped_at_two() {
    let state = State::new(plain());
    let mut output = Output::new();
    output.text("a", &state);
    output.whitespace(Whitespace::LineBreaks(7), Priority::Normal);
    output.text("b", &state);
    assert_eq!(output.finish(&state), "a\n\nb");
}

#[test]
fn peek_exposes_pending_directive() {
    let state = State::new(plain());
    let mut output = Output::new();
    assert_eq!(output.peek(), Whitespace::Nothing);
    output.text("a", &state);
    output.whitespace(Whitespace::LineBreak, Priority::Low);
    assert_eq!(output.peek(), Whitespace::LineBreak);
    output.text("b", &state);
    assert_eq!(output.peek(), Whitespace::Nothing);
    assert_eq!(output.finish(&state), "a\nb");
}

#[test]
fn initial_boundary_discards_low_requests() {
    let state = State::new(plain());
    let mut output = Output::new();
    output.whitespace(Whitespace::LineBreaks(2), Priority::Low);
    output.text("a", &state);
    assert_eq!(output.finish(&state), "a");
}

#[test]
fn line_break_carries_tab_indentation() {
    let state_settings = plain();
    let mut state = State::new(state_settings);
    state.indent();
    state.indent();
    let mut output = Output::new();
    output.text("a", &state);
    output.whitespace(Whitespace::LineBreak, Priority::Normal);
    output.text("b", &state);
    assert_eq!(output.finish(&state), "a\n\t\tb");
}

#[test]
fn line_break_carries_space_indentation() {
    let mut settings = plain();
    settings.indentation = 3;
    let mut state = State::new(settings);
    state.indent();
    state.indent();
    let mut output = Output::new();
    output.text("a", &state);
    output.whitespace(Whitespace::LineBreak, Priority::Normal);
    output.text("b", &state);
    assert_eq!(output.finish(&state), "a\n      b");
}

#[test]
fn from_text_counts_line_breaks() {
    assert_eq!(Whitespace::from_text(""), Whitespace::Space);
    assert_eq!(Whitespace::from_text("   "), Whitespace::Space);
    assert_eq!(Whitespace::from_text(" \n "), Whitespace::LineBreak);
    assert_eq!(Whitespace::from_text("\n\n"), Whitespace::LineBreaks(2));
    assert_eq!(Whitespace::from_text("\n \n \n\n"), Whitespace::LineBreaks(2));
}

#[test]
fn default_directive_is_empty() {
    assert_eq!(Whitespace::default(), Whitespace::Nothing);
}
