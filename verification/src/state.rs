//! Mutable layout state threaded through one formatting pass.
//!
//! A [`State`] tracks the indentation depth and whether an operator chain is
//! open.  A [`Save`] is a value-semantics checkpoint of both fields: nested
//! calls restore it so a subtree's layout changes do not leak to its siblings.

use vstd::prelude::*;

use crate::settings::Settings;

verus! {

/// The mathematical view of the layout state: an indentation depth and a
/// chain flag.
pub struct StateModel {
    pub indentation: nat,
    pub chained: bool,
}

/// `n + 1`, saturating at the machine limit.
pub open spec fn sat_inc(n: nat) -> nat {
    if n < usize::MAX {
        (n + 1) as nat
    } else {
        n
    }
}

/// `n - 1`, saturating at zero.
pub open spec fn sat_dec(n: nat) -> nat {
    if n > 0 {
        (n - 1) as nat
    } else {
        0
    }
}

/// One more indentation level; entering a bracket closes any open chain.
pub open spec fn st_indent(st: StateModel) -> StateModel {
    StateModel { indentation: sat_inc(st.indentation), chained: false }
}

/// One less indentation level.
pub open spec fn st_dedent(st: StateModel) -> StateModel {
    StateModel { indentation: sat_dec(st.indentation), chained: st.chained }
}

/// A fresh bracketed scope closes any open chain without indenting.
pub open spec fn st_enter_scope(st: StateModel) -> StateModel {
    StateModel { indentation: st.indentation, chained: false }
}

/// Opens a chain: one extra level while the chain continues.  Idempotent.
pub open spec fn st_start_chain(st: StateModel) -> StateModel {
    if st.chained {
        st
    } else {
        StateModel { indentation: sat_inc(st.indentation), chained: true }
    }
}

/// Closes a chain and gives its extra level back.  Idempotent.
pub open spec fn st_exit_chain(st: StateModel) -> StateModel {
    if st.chained {
        StateModel { indentation: sat_dec(st.indentation), chained: false }
    } else {
        st
    }
}

/// The layout state of one formatting pass.
#[derive(Debug)]
pub struct State {
    settings: Settings,
    indentation: usize,
    chained: bool,
}

/// A checkpoint of the layout state.
pub struct Save {
    indentation: usize,
    chained: bool,
}

impl View for State {
    type V = StateModel;

    closed spec fn view(&self) -> StateModel {
        StateModel { indentation: self.indentation as nat, chained: self.chained }
    }
}

impl View for Save {
    type V = StateModel;

    closed spec fn view(&self) -> StateModel {
        StateModel { indentation: self.indentation as nat, chained: self.chained }
    }
}

impl State {
    /// The settings of the pass; they never change while the pass runs.
    pub closed spec fn spec_settings(&self) -> Settings {
        self.settings
    }

    /// Creates the state for a fresh pass: no indentation, no open chain.
    pub fn new(settings: Settings) -> (r: State)
        ensures
            r@ == (StateModel { indentation: 0, chained: false }),
            r.spec_settings() == settings,
    {
        State { settings, indentation: 0, chained: false }
    }

    /// Adds one indentation level and closes any open chain.
    pub fn indent(&mut self)
        ensures
            final(self)@ == st_indent(old(self)@),
            final(self).spec_settings() == old(self).spec_settings(),
    {
        if self.indentation < usize::MAX {
            self.indentation = self.indentation + 1;
        }
        self.chained = false;
    }

    /// Closes any open chain without changing the indentation.
    pub fn enter_scope(&mut self)
        ensures
            final(self)@ == st_enter_scope(old(self)@),
            final(self).spec_settings() == old(self).spec_settings(),
    {
        self.chained = false;
    }

    /// Removes one indentation level.
    pub fn dedent(&mut self)
        ensures
            final(self)@ == st_dedent(old(self)@),
            final(self).spec_settings() == old(self).spec_settings(),
    {
        if self.indentation > 0 {
            self.indentation = self.indentation - 1;
        }
    }

    /// Opens an operator chain: if none is open, sets the flag and adds one
    /// indentation level; if one is open already, does nothing.
    pub fn start_chain(&mut self)
        ensures
            final(self)@ == st_start_chain(old(self)@),
            final(self).spec_settings() == old(self).spec_settings(),
    {
        if self.chained {
            return ;
        }
        self.chained = true;
        if self.indentation < usize::MAX {
            self.indentation = self.indentation + 1;
        }
    }

    /// Whether an operator chain is open.
    pub fn in_chain(&self) -> (r: bool)
        ensures
            r == self@.chained,
    {
        self.chained
    }

    /// Closes the open operator chain, if any, and gives its level back.
    pub fn exit_chain(&mut self)
        ensures
            final(self)@ == st_exit_chain(old(self)@),
            final(self).spec_settings() == old(self).spec_settings(),
    {
        if !self.chained {
            return ;
        }
        self.chained = false;
        if self.indentation > 0 {
            self.indentation = self.indentation - 1;
        }
    }

    /// The settings of the pass.
    pub fn settings(&self) -> (r: &Settings)
        ensures
            *r == self.spec_settings(),
    {
        &self.settings
    }

    /// The current indentation depth.
    pub fn indentation(&self) -> (r: usize)
        ensures
            r as nat == self@.indentation,
    {
        self.indentation
    }

    /// Checkpoints the layout state.
    pub fn save(&self) -> (r: Save)
        ensures
            r@ == self@,
    {
        Save { indentation: self.indentation, chained: self.chained }
    }

    /// Resets the layout state to a checkpoint.
    pub fn restore(&mut self, save: Save)
        ensures
            final(self)@ == save@,
            final(self).spec_settings() == old(self).spec_settings(),
    {
        self.indentation = save.indentation;
        self.chained = save.chained;
    }
}

} // verus!
