//! User-configurable layout preferences.
//!
//! A [`Settings`] value is an immutable input to one formatting pass.  A
//! [`PartialSettings`] value is an overlay: every field is optional, and only
//! the fields that are present overwrite the corresponding defaults.

use vstd::prelude::*;

verus! {

/// Layout preferences for one formatting pass.
///
/// `indentation` is the number of spaces per indentation level; zero selects
/// a tab character instead.  `final_newline` decides whether the rendered
/// output ends in exactly one line break.  The four `pad_*` flags decide, per
/// bracket shape, whether a compact bracketed list is padded with one space
/// just inside its brackets.
#[derive(Clone, Copy, Debug, PartialEq, Eq, Structural)]
pub struct Settings {
    pub indentation: usize,
    pub final_newline: bool,
    pub pad_parenthesis: bool,
    pub pad_curly_braces: bool,
    pub pad_square_brackets: bool,
    pub pad_angled_brackets: bool,
}

/// A partial settings document: absent fields keep their previous value.
#[derive(Clone, Copy, Debug, PartialEq, Eq, Structural)]
pub struct PartialSettings {
    pub indentation: Option<usize>,
    pub final_newline: Option<bool>,
    pub pad_parenthesis: Option<bool>,
    pub pad_curly_braces: Option<bool>,
    pub pad_square_brackets: Option<bool>,
    pub pad_angled_brackets: Option<bool>,
}

/// The default style: tab indentation, a final newline, and padding only
/// inside curly braces.
pub open spec fn spec_default_settings() -> Settings {
    Settings {
        indentation: 0,
        final_newline: true,
        pad_parenthesis: false,
        pad_curly_braces: true,
        pad_square_brackets: false,
        pad_angled_brackets: false,
    }
}

/// The overlay of `other` on `s`: present fields win, absent fields keep `s`.
pub open spec fn spec_overwrite(s: Settings, other: PartialSettings) -> Settings {
    Settings {
        indentation: if other.indentation is Some {
            other.indentation->0
        } else {
            s.indentation
        },
        final_newline: if other.final_newline is Some {
            other.final_newline->0
        } else {
            s.final_newline
        },
        pad_parenthesis: if other.pad_parenthesis is Some {
            other.pad_parenthesis->0
        } else {
            s.pad_parenthesis
        },
        pad_curly_braces: if other.pad_curly_braces is Some {
            other.pad_curly_braces->0
        } else {
            s.pad_curly_braces
        },
        pad_square_brackets: if other.pad_square_brackets is Some {
            other.pad_square_brackets->0
        } else {
            s.pad_square_brackets
        },
        pad_angled_brackets: if other.pad_angled_brackets is Some {
            other.pad_angled_brackets->0
        } else {
            s.pad_angled_brackets
        },
    }
}

impl Default for Settings {
    /// Returns the default style.
    fn default() -> (r: Settings)
        ensures
            r == spec_default_settings(),
    {
        Settings {
            indentation: 0,
            final_newline: true,
            pad_parenthesis: false,
            pad_curly_braces: true,
            pad_square_brackets: false,
            pad_angled_brackets: false,
        }
    }
}

impl Settings {
    /// Overlays a partial document on `self`: every present field overwrites
    /// the one of `self`, every absent field leaves it unchanged.
    pub fn overwrite(&mut self, other: PartialSettings)
        ensures
            *final(self) == spec_overwrite(*old(self), other),
    {
        if let Some(value) = other.indentation {
            self.indentation = value;
        }
        if let Some(value) = other.final_newline {
            self.final_newline = value;
        }
        if let Some(value) = other.pad_parenthesis {
            self.pad_parenthesis = value;
        }
        if let Some(value) = other.pad_curly_braces {
            self.pad_curly_braces = value;
        }
        if let Some(value) = other.pad_square_brackets {
            self.pad_square_brackets = value;
        }
        if let Some(value) = other.pad_angled_brackets {
            self.pad_angled_brackets = value;
        }
    }
}

} // verus!
