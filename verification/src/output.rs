//! The output sink: deferred whitespace with priority merge.
//!
//! At every boundary between two rendered elements at most one whitespace
//! directive is pending.  A request replaces the pending directive exactly
//! when its priority is at least the pending priority, so a `Guaranteed`
//! directive can only be replaced by another `Guaranteed` one.  The pending
//! directive is realized — written out, with the current indentation after a
//! line break — when the next literal text is emitted.

use vstd::prelude::*;
use vstd::string::StrSliceExecFns;
use vstd::string::StringExecFns;

use crate::settings::Settings;
use crate::state::State;

verus! {

/// A whitespace directive for one boundary: nothing, one space, one line
/// break, or `n` line breaks (`n - 1` blank lines).
#[derive(Clone, Copy, Debug, PartialEq, Eq, Structural)]
pub enum Whitespace {
    Nothing,
    Space,
    LineBreak,
    LineBreaks(usize),
}

/// The precedence of a directive request.
#[derive(Clone, Copy, Debug, PartialEq, Eq, Structural)]
pub enum Priority {
    Low,
    Normal,
    High,
    Guaranteed,
}

/// The rank that orders priorities.
pub open spec fn priority_rank(p: Priority) -> int {
    match p {
        Priority::Low => 0,
        Priority::Normal => 1,
        Priority::High => 2,
        Priority::Guaranteed => 3,
    }
}

/// Whether `a` ranks at least as high as `b`.
pub open spec fn priority_at_least(a: Priority, b: Priority) -> bool {
    priority_rank(a) >= priority_rank(b)
}

impl Priority {
    /// Returns whether `self` ranks at least as high as `other`.
    pub fn at_least(self, other: Priority) -> (r: bool)
        ensures
            r == priority_at_least(self, other),
    {
        let a: u8 = match self {
            Priority::Low => 0,
            Priority::Normal => 1,
            Priority::High => 2,
            Priority::Guaranteed => 3,
        };
        let b: u8 = match other {
            Priority::Low => 0,
            Priority::Normal => 1,
            Priority::High => 2,
            Priority::Guaranteed => 3,
        };
        a >= b
    }
}

/// The number of line breaks in a directive, capped at two: blank lines
/// collapse, they are never preserved beyond one.
pub open spec fn clamp_ws(w: Whitespace) -> Whitespace {
    match w {
        Whitespace::LineBreaks(n) => if n > 2 {
            Whitespace::LineBreaks(2)
        } else {
            Whitespace::LineBreaks(n)
        },
        _ => w,
    }
}

/// Whether a directive respects the blank-line cap.
pub open spec fn ws_capped(w: Whitespace) -> bool {
    match w {
        Whitespace::LineBreaks(n) => n <= 2,
        _ => true,
    }
}

impl Whitespace {
    /// Returns `self` with its line-break count capped at two.
    pub fn clamped(self) -> (r: Whitespace)
        ensures
            r == clamp_ws(self),
    {
        match self {
            Whitespace::LineBreaks(n) => if n > 2 {
                Whitespace::LineBreaks(2)
            } else {
                Whitespace::LineBreaks(n)
            },
            _ => self,
        }
    }
}

impl Default for Whitespace {
    /// An empty boundary.
    fn default() -> (r: Whitespace)
        ensures
            r == Whitespace::Nothing,
    {
        Whitespace::Nothing
    }
}

/// The number of line-break characters in `s`.
pub open spec fn newline_count(s: Seq<char>) -> nat
    decreases s.len(),
{
    if s.len() == 0 {
        0
    } else {
        (if s[0] == '\n' {
            1nat
        } else {
            0nat
        }) + newline_count(s.drop_first())
    }
}

/// The directive a whitespace token stands for: its line-break count decides,
/// capped at two.
pub open spec fn spec_from_text(s: Seq<char>) -> Whitespace {
    if newline_count(s) == 0 {
        Whitespace::Space
    } else if newline_count(s) == 1 {
        Whitespace::LineBreak
    } else {
        Whitespace::LineBreaks(2)
    }
}

impl Whitespace {
    /// Translates a whitespace token's text into a directive: no line break
    /// means one space, one line break stays one, two or more collapse to two.
    pub fn from_text(text: &str) -> (r: Whitespace)
        ensures
            r == spec_from_text(text@),
    {
        let n = text.unicode_len();
        let mut count: usize = 0;
        let mut i: usize = 0;
        proof {
            assert(text@.skip(0) =~= text@);
        }
        while i < n
            invariant
                i <= n,
                n == text@.len(),
                count <= 2,
                crate::element::capped(count as nat + newline_count(text@.skip(i as int)), 2) == crate::element::capped(
                    newline_count(text@),
                    2,
                ),
            decreases n - i,
        {
            let c = text.get_char(i);
            proof {
                let s = text@;
                assert(s.skip(i as int).len() > 0);
                assert(s.skip(i as int)[0] == s[i as int]);
                assert(s.skip(i as int).drop_first() =~= s.skip(i as int + 1));
            }
            if c == '\n' && count < 2 {
                count = count + 1;
            }
            i = i + 1;
        }
        proof {
            assert(text@.skip(n as int) =~= Seq::empty());
        }
        if count == 0 {
            Whitespace::Space
        } else if count == 1 {
            Whitespace::LineBreak
        } else {
            Whitespace::LineBreaks(2)
        }
    }
}

/// `n` copies of the character `c`.
pub open spec fn repeat_char(c: char, n: nat) -> Seq<char>
    decreases n,
{
    if n == 0 {
        Seq::empty()
    } else {
        repeat_char(c, (n - 1) as nat).push(c)
    }
}

/// The text of one indentation unit: a tab, or the configured number of
/// spaces.
pub open spec fn unit_chars(settings: Settings) -> Seq<char> {
    if settings.indentation == 0 {
        seq!['\t']
    } else {
        repeat_char(' ', settings.indentation as nat)
    }
}

/// The text of `n` indentation levels.
pub open spec fn indent_chars(settings: Settings, n: nat) -> Seq<char>
    decreases n,
{
    if n == 0 {
        Seq::empty()
    } else {
        indent_chars(settings, (n - 1) as nat) + unit_chars(settings)
    }
}

/// The text a directive realizes to, at indentation depth `ind`.
pub open spec fn ws_chars(w: Whitespace, settings: Settings, ind: nat) -> Seq<char> {
    match w {
        Whitespace::Nothing => Seq::empty(),
        Whitespace::Space => seq![' '],
        Whitespace::LineBreak => seq!['\n'] + indent_chars(settings, ind),
        Whitespace::LineBreaks(n) => repeat_char('\n', n as nat) + indent_chars(settings, ind),
    }
}

/// The mathematical view of the sink: the pending directive, its priority,
/// and the text written so far.
pub struct SinkModel {
    pub pending: Whitespace,
    pub priority: Priority,
    pub text: Seq<char>,
}

/// A request: replaces the pending directive exactly when the new priority
/// ranks at least as high as the pending one; the stored directive is capped.
pub open spec fn spec_request(s: SinkModel, w: Whitespace, p: Priority) -> SinkModel {
    if priority_at_least(p, s.priority) {
        SinkModel { pending: clamp_ws(w), priority: p, text: s.text }
    } else {
        s
    }
}

/// Realizes the pending directive and resets the boundary to empty.
pub open spec fn spec_flush(s: SinkModel, settings: Settings, ind: nat) -> SinkModel {
    SinkModel {
        pending: Whitespace::Nothing,
        priority: Priority::Low,
        text: s.text + ws_chars(s.pending, settings, ind),
    }
}

/// Realizes the pending directive, then writes `t` verbatim.
pub open spec fn spec_text(s: SinkModel, t: Seq<char>, settings: Settings, ind: nat) -> SinkModel {
    let f = spec_flush(s, settings, ind);
    SinkModel { pending: f.pending, priority: f.priority, text: f.text + t }
}

/// The text the sink ends the pass with: the final-newline policy is applied
/// at `Guaranteed` priority and the last directive is realized.
pub open spec fn spec_finish(s: SinkModel, settings: Settings, ind: nat) -> Seq<char> {
    spec_flush(
        spec_request(
            s,
            if settings.final_newline {
                Whitespace::LineBreak
            } else {
                Whitespace::Nothing
            },
            Priority::Guaranteed,
        ),
        settings,
        ind,
    ).text
}

/// A capability that accepts the rendered text.  The formatter itself never
/// performs output beyond handing text to a target.
pub trait Target {
    /// The text this target has accepted so far.
    spec fn contents(&self) -> Seq<char>;

    /// Accepts one chunk of rendered text.
    fn emit(&mut self, data: &str, settings: &Settings)
        ensures
            final(self).contents() == old(self).contents() + data@,
    ;
}

/// A target that collects the rendered text in memory.
pub struct Buffer {
    pub text: String,
}

impl Buffer {
    /// Creates an empty buffer.
    pub fn new() -> (r: Buffer)
        ensures
            r.contents() == Seq::<char>::empty(),
    {
        Buffer { text: String::new() }
    }
}

impl Target for Buffer {
    open spec fn contents(&self) -> Seq<char> {
        self.text@
    }

    fn emit(&mut self, data: &str, settings: &Settings) {
        self.text.append(data);
    }
}

/// The sink of one formatting pass: one pending directive, its priority, and
/// the text written so far.
pub struct Output {
    pending: Whitespace,
    priority: Priority,
    text: String,
}

impl View for Output {
    type V = SinkModel;

    closed spec fn view(&self) -> SinkModel {
        SinkModel { pending: self.pending, priority: self.priority, text: self.text@ }
    }
}

impl Output {
    /// Creates the sink for a fresh pass.  The initial boundary is empty at
    /// `High` priority, so whitespace found before the first token of the
    /// input cannot take hold.
    pub fn new() -> (r: Output)
        ensures
            r@ == (SinkModel {
                pending: Whitespace::Nothing,
                priority: Priority::High,
                text: Seq::<char>::empty(),
            }),
    {
        Output { pending: Whitespace::Nothing, priority: Priority::High, text: String::new() }
    }

    /// The pending directive, left in place.
    pub fn peek(&self) -> (r: Whitespace)
        ensures
            r == self@.pending,
    {
        self.pending
    }

    /// Requests a directive for the current boundary.  The request wins
    /// exactly when its priority ranks at least as high as the pending one;
    /// a losing request is discarded.
    pub fn whitespace(&mut self, whitespace: Whitespace, priority: Priority)
        ensures
            final(self)@ == spec_request(old(self)@, whitespace, priority),
    {
        if priority.at_least(self.priority) {
            self.pending = whitespace.clamped();
            self.priority = priority;
        }
    }

    /// Appends the current indentation to the text.
    fn emit_indentation(&mut self, state: &State)
        ensures
            final(self)@ == (SinkModel {
                pending: old(self)@.pending,
                priority: old(self)@.priority,
                text: old(self)@.text + indent_chars(state.spec_settings(), state@.indentation),
            }),
    {
        let depth = state.indentation();
        let unit = state.settings().indentation;
        let ghost settings = state.spec_settings();
        let mut level: usize = 0;
        while level < depth
            invariant
                level <= depth,
                depth as nat == state@.indentation,
                unit == settings.indentation,
                settings == state.spec_settings(),
                self.pending == old(self)@.pending,
                self.priority == old(self)@.priority,
                self.text@ == old(self)@.text + indent_chars(settings, level as nat),
            decreases depth - level,
        {
            if unit == 0 {
                self.text.append("\t");
                proof {
                    reveal_strlit("\t");
                    assert(self.text@ =~= old(self)@.text + indent_chars(
                        settings,
                        level as nat + 1,
                    ));
                }
            } else {
                let mut j: usize = 0;
                while j < unit
                    invariant
                        j <= unit,
                        unit == settings.indentation,
                        unit != 0,
                        self.pending == old(self)@.pending,
                        self.priority == old(self)@.priority,
                        self.text@ == old(self)@.text + indent_chars(settings, level as nat)
                            + repeat_char(' ', j as nat),
                    decreases unit - j,
                {
                    self.text.append(" ");
                    proof {
                        reveal_strlit(" ");
                        assert(self.text@ =~= old(self)@.text + indent_chars(settings, level as nat)
                            + repeat_char(' ', j as nat + 1));
                    }
                    j = j + 1;
                }
                proof {
                    assert(self.text@ =~= old(self)@.text + indent_chars(
                        settings,
                        level as nat + 1,
                    ));
                }
            }
            level = level + 1;
        }
    }

    /// Realizes the pending directive into the text and resets the boundary.
    fn flush(&mut self, state: &State)
        ensures
            final(self)@ == spec_flush(old(self)@, state.spec_settings(), state@.indentation),
    {
        let ghost settings = state.spec_settings();
        match self.pending {
            Whitespace::Nothing => {
                proof {
                    assert(self.text@ =~= old(self)@.text + ws_chars(
                        old(self)@.pending,
                        settings,
                        state@.indentation,
                    ));
                }
            },
            Whitespace::Space => {
                self.text.append(" ");
                proof {
                    reveal_strlit(" ");
                    assert(self.text@ =~= old(self)@.text + ws_chars(
                        old(self)@.pending,
                        settings,
                        state@.indentation,
                    ));
                }
            },
            Whitespace::LineBreak => {
                self.text.append("\n");
                proof {
                    reveal_strlit("\n");
                    assert(self.text@ =~= old(self)@.text + seq!['\n']);
                }
                self.emit_indentation(state);
                proof {
                    assert(self.text@ =~= old(self)@.text + ws_chars(
                        old(self)@.pending,
                        settings,
                        state@.indentation,
                    ));
                }
            },
            Whitespace::LineBreaks(amount) => {
                let mut j: usize = 0;
                while j < amount
                    invariant
                        j <= amount,
                        self.pending == old(self)@.pending,
                        self.priority == old(self)@.priority,
                        self.text@ == old(self)@.text + repeat_char('\n', j as nat),
                    decreases amount - j,
                {
                    self.text.append("\n");
                    proof {
                        reveal_strlit("\n");
                        assert(self.text@ =~= old(self)@.text + repeat_char('\n', j as nat + 1));
                    }
                    j = j + 1;
                }
                self.emit_indentation(state);
                proof {
                    assert(self.text@ =~= old(self)@.text + ws_chars(
                        old(self)@.pending,
                        settings,
                        state@.indentation,
                    ));
                }
            },
        }
        self.pending = Whitespace::Nothing;
        self.priority = Priority::Low;
    }

    /// Realizes the pending directive, then writes `text` verbatim.
    pub fn text(&mut self, text: &str, state: &State)
        ensures
            final(self)@ == spec_text(old(self)@, text@, state.spec_settings(), state@.indentation),
    {
        self.flush(state);
        self.text.append(text);
    }

    /// Ends the pass: applies the final-newline policy at `Guaranteed`
    /// priority, realizes the last directive, and returns the rendered text.
    pub fn finish(self, state: &State) -> (r: String)
        ensures
            r@ == spec_finish(self@, state.spec_settings(), state@.indentation),
    {
        let mut out = self;
        if state.settings().final_newline {
            out.whitespace(Whitespace::LineBreak, Priority::Guaranteed);
        } else {
            out.whitespace(Whitespace::Nothing, Priority::Guaranteed);
        }
        out.flush(state);
        out.text
    }
}

/// Priority dominance: of two requests at one boundary with ranks `p1 < p2`,
/// the stronger one decides the pending directive whichever is submitted
/// first, and the boundary then realizes the stronger request's text.  A
/// request takes the boundary exactly when it ranks at least as high as what
/// was already pending, so nothing below `Guaranteed` ever replaces a
/// pending `Guaranteed` directive.
pub proof fn lemma_priority_dominance(
    s: SinkModel,
    w1: Whitespace,
    p1: Priority,
    w2: Whitespace,
    p2: Priority,
    settings: Settings,
    ind: nat,
)
    requires
        priority_rank(p1) < priority_rank(p2),
    ensures
        spec_request(spec_request(s, w1, p1), w2, p2) == spec_request(
            spec_request(s, w2, p2),
            w1,
            p1,
        ),
        priority_at_least(p2, s.priority) ==> spec_request(spec_request(s, w1, p1), w2, p2).pending
            == clamp_ws(w2),
        priority_at_least(p2, s.priority) ==> spec_flush(
            spec_request(spec_request(s, w1, p1), w2, p2),
            settings,
            ind,
        ).text == s.text + ws_chars(clamp_ws(w2), settings, ind),
        s.priority == Priority::Guaranteed && p2 != Priority::Guaranteed ==> spec_request(
            spec_request(s, w1, p1),
            w2,
            p2,
        ) == s,
{
}

/// Blank-line cap: however a request is made, the pending directive never
/// asks for more than two line breaks, so no realized boundary holds more
/// than one blank line.
pub proof fn lemma_blank_line_cap(s: SinkModel, w: Whitespace, p: Priority)
    requires
        ws_capped(s.pending),
    ensures
        ws_capped(spec_request(s, w, p).pending),
{
}



/// One character holds one line break exactly when it is one.
proof fn lemma_newline_count_single(c: char)
    ensures
        newline_count(seq![c]) == if c == '\n' {
            1nat
        } else {
            0nat
        },
{
    assert(seq![c].drop_first() =~= Seq::<char>::empty());
    assert(newline_count(Seq::<char>::empty()) == 0);
    assert(seq![c].len() == 1);
    assert(seq![c][0] == c);
    assert(newline_count(seq![c]) == (if c == '\n' {
        1nat
    } else {
        0nat
    }) + newline_count(seq![c].drop_first()));
}

/// Line breaks distribute over concatenation.
proof fn lemma_newline_count_concat(a: Seq<char>, b: Seq<char>)
    ensures
        newline_count(a + b) == newline_count(a) + newline_count(b),
    decreases a.len(),
{
    if a.len() == 0 {
        assert(a + b =~= b);
    } else {
        assert((a + b).drop_first() =~= a.drop_first() + b);
        assert((a + b)[0] == a[0]);
        assert((a + b).len() > 0);
        lemma_newline_count_concat(a.drop_first(), b);
    }
}

/// A run of one repeated character holds as many line breaks as its length,
/// or none at all.
proof fn lemma_newline_count_repeat(c: char, n: nat)
    ensures
        newline_count(repeat_char(c, n)) == if c == '\n' {
            n
        } else {
            0
        },
    decreases n,
{
    if n > 0 {
        lemma_newline_count_repeat(c, (n - 1) as nat);
        let prefix = repeat_char(c, (n - 1) as nat);
        assert(repeat_char(c, n) =~= prefix + seq![c]);
        lemma_newline_count_concat(prefix, seq![c]);
        lemma_newline_count_single(c);
    }
}

/// Indentation text holds no line break.
proof fn lemma_indent_chars_no_newline(settings: Settings, n: nat)
    ensures
        newline_count(indent_chars(settings, n)) == 0,
    decreases n,
{
    if n > 0 {
        lemma_indent_chars_no_newline(settings, (n - 1) as nat);
        lemma_newline_count_concat(indent_chars(settings, (n - 1) as nat), unit_chars(settings));
        if settings.indentation == 0 {
            lemma_newline_count_single('\t');
        } else {
            lemma_newline_count_repeat(' ', settings.indentation as nat);
        }
    }
}

/// The whitespace layer of idempotence: the text a space, a line break or a
/// double line break realizes to, indentation included, reads back as the
/// very same directive.  A formatter boundary therefore reproduces itself
/// when its own output is read again as a whitespace token.
pub proof fn lemma_directive_round_trip(settings: Settings, ind: nat)
    ensures
        spec_from_text(ws_chars(Whitespace::Space, settings, ind)) == Whitespace::Space,
        spec_from_text(ws_chars(Whitespace::LineBreak, settings, ind)) == Whitespace::LineBreak,
        spec_from_text(ws_chars(Whitespace::LineBreaks(2), settings, ind))
            == Whitespace::LineBreaks(2),
{
    lemma_newline_count_single(' ');
    lemma_newline_count_single('\n');
    lemma_indent_chars_no_newline(settings, ind);
    lemma_newline_count_concat(seq!['\n'], indent_chars(settings, ind));
    lemma_newline_count_repeat('\n', 2);
    lemma_newline_count_concat(repeat_char('\n', 2), indent_chars(settings, ind));
}

} // verus!
