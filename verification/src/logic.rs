//! The layout engine: scope classification and whitespace resolution.
//!
//! For every boundary between two adjacent elements the resolver decides one
//! whitespace directive from the pair of neighbouring kinds, the directive
//! the source whitespace stood for, the scope of the surrounding node, and
//! the layout state.  A scope is chosen per list or block node from its
//! trailing separator, its padding settings, or its emptiness.

use vstd::prelude::*;

use crate::element::Element;
use crate::element::children_of;
use crate::element::content_len;
use crate::element::content_len_capped;
use crate::kind::Kind;
use crate::kind::is_attr_owner;
use crate::kind::is_bang_parent;
use crate::kind::is_chain_end;
use crate::kind::is_chain_op;
use crate::kind::is_close_bracket;
use crate::kind::is_close_delim;
use crate::kind::is_compact_kind;
use crate::kind::is_item;
use crate::kind::is_list_kind;
use crate::kind::is_open_delim;
use crate::kind::is_opaque;
use crate::kind::is_param_like_list;
use crate::kind::is_prefix_op;
use crate::kind::is_prefix_parent;
use crate::kind::is_ref_parent;
use crate::kind::is_separator;
use crate::kind::is_small_item;
use crate::kind::is_stmt;
use crate::kind::is_tight_path_parent;
use crate::kind::is_tight_punct;
use crate::kind::is_top_level;
use crate::element::raw_text;
use crate::element::text_of;
use crate::element::raw_text_seq;
use crate::output::Output;
use crate::output::Priority;
use crate::output::SinkModel;
use crate::output::Whitespace;
use crate::output::spec_from_text;
use crate::output::ws_capped;
use crate::output::spec_request;
use crate::output::spec_text;
use crate::output::ws_chars;
use crate::settings::Settings;
use crate::state::State;
use crate::state::StateModel;
use crate::state::st_dedent;
use crate::state::st_enter_scope;
use crate::state::st_exit_chain;
use crate::state::st_indent;
use crate::state::st_start_chain;

verus! {

/// The rendering mode of a list- or block-like node, for the duration of
/// formatting its children.
#[derive(Debug, Clone, Copy, PartialEq, Eq, Structural)]
pub enum Scope {
    Default,
    CompactList,
    PaddedList,
    MultilineList,
}

/// Whether some element of `cs` from position `i` on is a rest marker
/// (`..`), which forces a record literal onto multiple lines.
pub open spec fn spec_has_rest_marker(cs: Seq<Element>, i: int) -> bool
    decreases cs.len() - i,
{
    if i < 0 || i >= cs.len() {
        false
    } else {
        cs[i].spec_kind() == Kind::Dot2 || spec_has_rest_marker(cs, i + 1)
    }
}

/// The trailing-separator scan from position `i` on, having seen `acc` so
/// far: a separator turns the flag on, trivia and closing brackets keep it,
/// and any other element turns it off.  The final value tells whether the
/// last element before the closing bracket is a separator.
pub open spec fn spec_trailing_sep(cs: Seq<Element>, i: int, acc: bool) -> bool
    decreases cs.len() - i,
{
    if i < 0 || i >= cs.len() {
        acc
    } else {
        let k = cs[i].spec_kind();
        let next = if is_separator(k) {
            true
        } else if k == Kind::Whitespace || k == Kind::Comment {
            acc
        } else if is_close_bracket(k) {
            acc
        } else {
            false
        };
        spec_trailing_sep(cs, i + 1, next)
    }
}

/// The padding flag of the first opening bracket among `cs` from position
/// `i` on, or false when none occurs.
pub open spec fn spec_pad_of(cs: Seq<Element>, i: int, settings: Settings) -> bool
    decreases cs.len() - i,
{
    if i < 0 || i >= cs.len() {
        false
    } else {
        let k = cs[i].spec_kind();
        if k == Kind::LParen {
            settings.pad_parenthesis
        } else if k == Kind::LBrack {
            settings.pad_square_brackets
        } else if k == Kind::LCurly {
            settings.pad_curly_braces
        } else if k == Kind::LAngle {
            settings.pad_angled_brackets
        } else {
            spec_pad_of(cs, i + 1, settings)
        }
    }
}

/// The scope of a list-like node: a trailing separator (or a rest marker in
/// a record literal) forces one element per line; otherwise the padding flag
/// decides between a padded and a compact single line.
pub open spec fn spec_classify_list(e: Element, pad: bool) -> Scope {
    let cs = children_of(e);
    if e.spec_kind() == Kind::RecordExprFieldList && spec_has_rest_marker(cs, 0) {
        Scope::MultilineList
    } else if spec_trailing_sep(cs, 0, false) {
        Scope::MultilineList
    } else if pad {
        Scope::PaddedList
    } else {
        Scope::CompactList
    }
}

/// The emptiness-or-shortness scan of a code body from position `i` on:
/// braces and whitespace are ignored, the first other element may be shorter
/// than `limit`, and everything after it must not occur at all (the limit
/// drops to zero once spent).
pub open spec fn spec_code_short(cs: Seq<Element>, i: int, limit: nat) -> bool
    decreases cs.len() - i,
{
    if i < 0 || i >= cs.len() {
        true
    } else {
        let k = cs[i].spec_kind();
        if k == Kind::LCurly || k == Kind::RCurly || k == Kind::Whitespace {
            spec_code_short(cs, i + 1, limit)
        } else if content_len(cs[i]) < limit {
            spec_code_short(cs, i + 1, 0)
        } else {
            false
        }
    }
}

/// The scope of a code body: padded onto one line when empty or short
/// enough, one statement per line otherwise.
pub open spec fn spec_classify_code(cs: Seq<Element>, limit: nat) -> Scope {
    if spec_code_short(cs, 0, limit) {
        Scope::PaddedList
    } else {
        Scope::MultilineList
    }
}

/// The scope a node's children are formatted under.
pub open spec fn spec_scope_of(e: Element, settings: Settings) -> Scope {
    let k = e.spec_kind();
    let cs = children_of(e);
    if is_list_kind(k) {
        spec_classify_list(e, spec_pad_of(cs, 0, settings))
    } else if is_compact_kind(k) {
        Scope::CompactList
    } else if k == Kind::MatchArmList || k == Kind::WhereClause {
        Scope::MultilineList
    } else if k == Kind::ItemList || k == Kind::AssocItemList {
        spec_classify_code(cs, 0)
    } else if k == Kind::StmtList {
        spec_classify_code(cs, 5)
    } else {
        Scope::Default
    }
}

/// Classifies a list-like node.
#[verifier::loop_isolation(false)]
fn list(node: &Element, pad: bool) -> (r: Scope)
    requires
        node is Node,
    ensures
        r == spec_classify_list(*node, pad),
{
    match node {
        Element::Node { kind, children } => {
            let n = children.len();
            if *kind == Kind::RecordExprFieldList {
                let mut i: usize = 0;
                while i < n
                    invariant
                        i <= n,
                        spec_has_rest_marker(children@, 0) == spec_has_rest_marker(
                            children@,
                            i as int,
                        ),
                    decreases n - i,
                {
                    if children[i].kind() == Kind::Dot2 {
                        return Scope::MultilineList;
                    }
                    i = i + 1;
                }
            }
            let mut trailing = false;
            let mut i: usize = 0;
            while i < n
                invariant
                    i <= n,
                    spec_trailing_sep(children@, 0, false) == spec_trailing_sep(
                        children@,
                        i as int,
                        trailing,
                    ),
                decreases n - i,
            {
                let k = children[i].kind();
                if k.separator() {
                    trailing = true;
                } else if k == Kind::Whitespace || k == Kind::Comment {
                } else if k.close_bracket() {
                } else {
                    trailing = false;
                }
                i = i + 1;
            }
            if trailing {
                Scope::MultilineList
            } else if pad {
                Scope::PaddedList
            } else {
                Scope::CompactList
            }
        },
        Element::Token { .. } => {
            proof {
                assert(false);
            }
            Scope::Default
        },
    }
}

/// Classifies a code body against its shortness limit.
#[verifier::loop_isolation(false)]
fn code(node: &Element, limit: usize) -> (r: Scope)
    requires
        node is Node,
    ensures
        r == spec_classify_code(children_of(*node), limit as nat),
{
    match node {
        Element::Node { kind, children } => {
            let n = children.len();
            let mut lim = limit;
            let mut i: usize = 0;
            while i < n
                invariant
                    i <= n,
                    spec_code_short(children@, 0, limit as nat) == spec_code_short(
                        children@,
                        i as int,
                        lim as nat,
                    ),
                decreases n - i,
            {
                let k = children[i].kind();
                if k == Kind::LCurly || k == Kind::RCurly || k == Kind::Whitespace {
                } else {
                    let c = content_len_capped(&children[i], lim);
                    if c < lim {
                        lim = 0;
                    } else {
                        return Scope::MultilineList;
                    }
                }
                i = i + 1;
            }
            Scope::PaddedList
        },
        Element::Token { .. } => {
            proof {
                assert(false);
            }
            Scope::Default
        },
    }
}

/// The resolver's full answer for one boundary: the directive, the priority
/// it is requested at, and the layout state after any indentation or chain
/// bookkeeping the rule performs.
pub open spec fn spec_resolve_main(
    left: Kind,
    middle: Whitespace,
    right: Kind,
    scope: Scope,
    parent: Kind,
    st: StateModel,
) -> (Whitespace, Priority, StateModel) {
    if is_open_delim(left) && scope == Scope::MultilineList {
        (Whitespace::LineBreak, Priority::Normal, st_indent(st))
    } else if is_open_delim(left) && scope == Scope::PaddedList {
        (Whitespace::Space, Priority::Normal, st_enter_scope(st))
    } else if is_open_delim(left) && scope == Scope::CompactList {
        (Whitespace::Nothing, Priority::Normal, st_enter_scope(st))
    } else if is_close_delim(right) && scope == Scope::MultilineList {
        (Whitespace::LineBreak, Priority::Normal, st_dedent(st))
    } else if is_close_delim(right) && scope == Scope::PaddedList {
        (Whitespace::Space, Priority::Normal, st)
    } else if is_close_delim(right) && scope == Scope::CompactList {
        (Whitespace::Nothing, Priority::Normal, st)
    } else if right == Kind::Comma {
        (Whitespace::Nothing, Priority::Normal, st)
    } else if left == Kind::Comma && middle is LineBreaks && scope == Scope::MultilineList {
        (Whitespace::LineBreaks(2), Priority::Normal, st)
    } else if left == Kind::Comma && scope == Scope::MultilineList {
        (Whitespace::LineBreak, Priority::Normal, st)
    } else if left == Kind::Comma {
        (Whitespace::Space, Priority::Normal, st)
    } else if is_small_item(left) && left == right && middle is LineBreaks {
        (Whitespace::LineBreaks(2), Priority::Normal, st)
    } else if is_small_item(left) && left == right {
        (Whitespace::LineBreak, Priority::Normal, st)
    } else if left == Kind::Module && right == Kind::Module {
        (Whitespace::LineBreak, Priority::Normal, st)
    } else if is_item(right) {
        (Whitespace::LineBreaks(2), Priority::Normal, st)
    } else if is_item(left) {
        (Whitespace::LineBreaks(2), Priority::Normal, st)
    } else if right == Kind::Const && is_top_level(parent) {
        (Whitespace::LineBreaks(2), Priority::Normal, st)
    } else if left == Kind::Const && is_top_level(parent) {
        (Whitespace::LineBreaks(2), Priority::Normal, st)
    } else if is_stmt(left) && middle is LineBreaks && scope == Scope::MultilineList {
        (Whitespace::LineBreaks(2), Priority::Normal, st)
    } else if is_stmt(left) && scope == Scope::MultilineList {
        (Whitespace::LineBreak, Priority::Normal, st)
    } else if (middle == Whitespace::LineBreak || middle is LineBreaks) && is_chain_op(right) {
        (Whitespace::LineBreak, Priority::Normal, st_start_chain(st))
    } else if right == Kind::AssocItemList && st.chained {
        (Whitespace::LineBreak, Priority::Normal, st_exit_chain(st))
    } else if is_tight_punct(right) {
        (Whitespace::Nothing, Priority::Normal, st)
    } else if is_tight_punct(left) {
        (Whitespace::Nothing, Priority::Normal, st)
    } else if right == Kind::Colon {
        (Whitespace::Nothing, Priority::Normal, st)
    } else if left == Kind::Colon {
        (Whitespace::Space, Priority::Normal, st)
    } else if right == Kind::Semicolon || right == Kind::Question {
        (Whitespace::Nothing, Priority::Normal, st)
    } else if left == Kind::Pound {
        (Whitespace::Nothing, Priority::Normal, st)
    } else if left == Kind::Bang && is_bang_parent(parent) {
        (Whitespace::Nothing, Priority::Normal, st)
    } else if right == Kind::Bang {
        (Whitespace::Nothing, Priority::Normal, st)
    } else if left == Kind::Amp && is_ref_parent(parent) {
        (Whitespace::Nothing, Priority::Normal, st)
    } else if right == Kind::Dot {
        (Whitespace::Nothing, Priority::High, st)
    } else if left == Kind::Dot {
        (Whitespace::Nothing, Priority::High, st)
    } else if right == Kind::Eq {
        (Whitespace::Space, Priority::High, st)
    } else if left == Kind::Eq {
        (Whitespace::Space, Priority::High, st)
    } else if right == Kind::LParen {
        (Whitespace::Nothing, Priority::Normal, st)
    } else if left == Kind::Attr && is_attr_owner(parent) {
        (Whitespace::LineBreak, Priority::Normal, st)
    } else if right == Kind::Meta {
        (Whitespace::Nothing, Priority::Normal, st)
    } else if left == Kind::Meta {
        (Whitespace::Nothing, Priority::Normal, st)
    } else if left == Kind::Path && is_tight_path_parent(parent) {
        (Whitespace::Nothing, Priority::Normal, st)
    } else if left == Kind::MatchArm && middle is LineBreaks && scope == Scope::MultilineList {
        (Whitespace::LineBreaks(2), Priority::Normal, st)
    } else if left == Kind::MatchArm && scope == Scope::MultilineList {
        (Whitespace::LineBreak, Priority::Normal, st)
    } else if is_param_like_list(right) && parent != Kind::ClosureExpr {
        (Whitespace::Nothing, Priority::Normal, st)
    } else if left == Kind::Star && right == Kind::ConstKw {
        (Whitespace::Nothing, Priority::Normal, st)
    } else if is_prefix_op(left) && is_prefix_parent(parent) {
        (Whitespace::Nothing, Priority::Normal, st)
    } else if right == Kind::LBrack && parent == Kind::IndexExpr {
        (Whitespace::Nothing, Priority::Normal, st)
    } else if right == Kind::ArgList {
        (Whitespace::Nothing, Priority::Normal, st)
    } else if right == Kind::WhereClause {
        (Whitespace::LineBreak, Priority::Normal, st)
    } else if left == Kind::WhereClause {
        (Whitespace::LineBreak, Priority::Normal, st)
    } else if right == Kind::WherePred {
        (Whitespace::LineBreak, Priority::Normal, st_start_chain(st))
    } else if is_chain_end(right) && st.chained {
        (Whitespace::LineBreak, Priority::Normal, st_exit_chain(st))
    } else if middle is LineBreaks && parent == Kind::StmtList {
        (Whitespace::LineBreaks(2), Priority::Normal, st)
    } else if parent == Kind::StmtList {
        (Whitespace::LineBreak, Priority::Normal, st)
    } else {
        (Whitespace::Space, Priority::Normal, st)
    }
}

/// The resolver, with the comment adjustment on top of the main table: a
/// comment keeps the whitespace the source had around it, except that blank
/// lines still collapse to one.
pub open spec fn spec_resolve(
    left: Kind,
    middle: Whitespace,
    right: Kind,
    scope: Scope,
    parent: Kind,
    st: StateModel,
) -> (Whitespace, Priority, StateModel) {
    let (ws, p, st1) = spec_resolve_main(left, middle, right, scope, parent, st);
    let adjusted = if right == Kind::Comment {
        if middle is LineBreaks {
            Whitespace::LineBreaks(2)
        } else {
            middle
        }
    } else if left == Kind::Comment && middle is LineBreaks {
        Whitespace::LineBreaks(2)
    } else if left == Kind::Comment && middle == Whitespace::LineBreak {
        Whitespace::LineBreak
    } else {
        ws
    };
    (adjusted, p, st1)
}

/// Decides the whitespace at one boundary: `left` and `right` are the kinds
/// of the adjacent elements, `middle` the directive the source whitespace
/// between them stood for, `scope` the rendering mode of the surrounding
/// node, and `parent` that node's kind.  Returns the directive and the
/// priority to request it at, and performs the rule's indentation and chain
/// bookkeeping on `state`.
#[verifier::rlimit(60)]
fn whitespace(
    left: Kind,
    middle: Whitespace,
    right: Kind,
    scope: Scope,
    parent: Kind,
    state: &mut State,
) -> (r: (Whitespace, Priority))
    ensures
        r.0 == spec_resolve(left, middle, right, scope, parent, old(state)@).0,
        r.1 == spec_resolve(left, middle, right, scope, parent, old(state)@).1,
        final(state)@ == spec_resolve(left, middle, right, scope, parent, old(state)@).2,
        final(state).spec_settings() == old(state).spec_settings(),
{
    let ws: (Whitespace, Priority);
    if left.open_delim() && scope == Scope::MultilineList {
        state.indent();
        ws = (Whitespace::LineBreak, Priority::Normal);
    } else if left.open_delim() && scope == Scope::PaddedList {
        state.enter_scope();
        ws = (Whitespace::Space, Priority::Normal);
    } else if left.open_delim() && scope == Scope::CompactList {
        state.enter_scope();
        ws = (Whitespace::Nothing, Priority::Normal);
    } else if right.close_delim() && scope == Scope::MultilineList {
        state.dedent();
        ws = (Whitespace::LineBreak, Priority::Normal);
    } else if right.close_delim() && scope == Scope::PaddedList {
        ws = (Whitespace::Space, Priority::Normal);
    } else if right.close_delim() && scope == Scope::CompactList {
        ws = (Whitespace::Nothing, Priority::Normal);
    } else if right == Kind::Comma {
        ws = (Whitespace::Nothing, Priority::Normal);
    } else if left == Kind::Comma && matches!(middle, Whitespace::LineBreaks(_)) && scope == Scope::MultilineList {
        ws = (Whitespace::LineBreaks(2), Priority::Normal);
    } else if left == Kind::Comma && scope == Scope::MultilineList {
        ws = (Whitespace::LineBreak, Priority::Normal);
    } else if left == Kind::Comma {
        ws = (Whitespace::Space, Priority::Normal);
    } else if left.small_item() && left == right && matches!(middle, Whitespace::LineBreaks(_)) {
        ws = (Whitespace::LineBreaks(2), Priority::Normal);
    } else if left.small_item() && left == right {
        ws = (Whitespace::LineBreak, Priority::Normal);
    } else if left == Kind::Module && right == Kind::Module {
        ws = (Whitespace::LineBreak, Priority::Normal);
    } else if right.item() {
        ws = (Whitespace::LineBreaks(2), Priority::Normal);
    } else if left.item() {
        ws = (Whitespace::LineBreaks(2), Priority::Normal);
    } else if right == Kind::Const && parent.top_level() {
        ws = (Whitespace::LineBreaks(2), Priority::Normal);
    } else if left == Kind::Const && parent.top_level() {
        ws = (Whitespace::LineBreaks(2), Priority::Normal);
    } else if left.stmt() && matches!(middle, Whitespace::LineBreaks(_)) && scope == Scope::MultilineList {
        ws = (Whitespace::LineBreaks(2), Priority::Normal);
    } else if left.stmt() && scope == Scope::MultilineList {
        ws = (Whitespace::LineBreak, Priority::Normal);
    } else if matches!(middle, Whitespace::LineBreak | Whitespace::LineBreaks(_)) && right.chain_op() {
        state.start_chain();
        ws = (Whitespace::LineBreak, Priority::Normal);
    } else if right == Kind::AssocItemList && state.in_chain() {
        state.exit_chain();
        ws = (Whitespace::LineBreak, Priority::Normal);
    } else if right.tight_punct() {
        ws = (Whitespace::Nothing, Priority::Normal);
    } else if left.tight_punct() {
        ws = (Whitespace::Nothing, Priority::Normal);
    } else if right == Kind::Colon {
        ws = (Whitespace::Nothing, Priority::Normal);
    } else if left == Kind::Colon {
        ws = (Whitespace::Space, Priority::Normal);
    } else if right == Kind::Semicolon || right == Kind::Question {
        ws = (Whitespace::Nothing, Priority::Normal);
    } else if left == Kind::Pound {
        ws = (Whitespace::Nothing, Priority::Normal);
    } else if left == Kind::Bang && parent.bang_parent() {
        ws = (Whitespace::Nothing, Priority::Normal);
    } else if right == Kind::Bang {
        ws = (Whitespace::Nothing, Priority::Normal);
    } else if left == Kind::Amp && parent.ref_parent() {
        ws = (Whitespace::Nothing, Priority::Normal);
    } else if right == Kind::Dot {
        ws = (Whitespace::Nothing, Priority::High);
    } else if left == Kind::Dot {
        ws = (Whitespace::Nothing, Priority::High);
    } else if right == Kind::Eq {
        ws = (Whitespace::Space, Priority::High);
    } else if left == Kind::Eq {
        ws = (Whitespace::Space, Priority::High);
    } else if right == Kind::LParen {
        ws = (Whitespace::Nothing, Priority::Normal);
    } else if left == Kind::Attr && parent.attr_owner() {
        ws = (Whitespace::LineBreak, Priority::Normal);
    } else if right == Kind::Meta {
        ws = (Whitespace::Nothing, Priority::Normal);
    } else if left == Kind::Meta {
        ws = (Whitespace::Nothing, Priority::Normal);
    } else if left == Kind::Path && parent.tight_path_parent() {
        ws = (Whitespace::Nothing, Priority::Normal);
    } else if left == Kind::MatchArm && matches!(middle, Whitespace::LineBreaks(_)) && scope == Scope::MultilineList {
        ws = (Whitespace::LineBreaks(2), Priority::Normal);
    } else if left == Kind::MatchArm && scope == Scope::MultilineList {
        ws = (Whitespace::LineBreak, Priority::Normal);
    } else if right.param_like_list() && parent != Kind::ClosureExpr {
        ws = (Whitespace::Nothing, Priority::Normal);
    } else if left == Kind::Star && right == Kind::ConstKw {
        ws = (Whitespace::Nothing, Priority::Normal);
    } else if left.prefix_op() && parent.prefix_parent() {
        ws = (Whitespace::Nothing, Priority::Normal);
    } else if right == Kind::LBrack && parent == Kind::IndexExpr {
        ws = (Whitespace::Nothing, Priority::Normal);
    } else if right == Kind::ArgList {
        ws = (Whitespace::Nothing, Priority::Normal);
    } else if right == Kind::WhereClause {
        ws = (Whitespace::LineBreak, Priority::Normal);
    } else if left == Kind::WhereClause {
        ws = (Whitespace::LineBreak, Priority::Normal);
    } else if right == Kind::WherePred {
        state.start_chain();
        ws = (Whitespace::LineBreak, Priority::Normal);
    } else if right.chain_end() && state.in_chain() {
        state.exit_chain();
        ws = (Whitespace::LineBreak, Priority::Normal);
    } else if matches!(middle, Whitespace::LineBreaks(_)) && parent == Kind::StmtList {
        ws = (Whitespace::LineBreaks(2), Priority::Normal);
    } else if parent == Kind::StmtList {
        ws = (Whitespace::LineBreak, Priority::Normal);
    } else {
        ws = (Whitespace::Space, Priority::Normal);
    }
    if right == Kind::Comment {
        if matches!(middle, Whitespace::LineBreaks(_)) {
            (Whitespace::LineBreaks(2), ws.1)
        } else {
            (middle, ws.1)
        }
    } else if left == Kind::Comment && matches!(middle, Whitespace::LineBreaks(_)) {
        (Whitespace::LineBreaks(2), ws.1)
    } else if left == Kind::Comment && middle == Whitespace::LineBreak {
        (Whitespace::LineBreak, ws.1)
    } else {
        ws
    }
}


/// The sink after the raw text under `e` is written through it, one token
/// at a time: the first token realizes whatever directive was pending.
pub open spec fn spec_skip(e: Element, sink: SinkModel, settings: Settings, ind: nat) -> SinkModel
    decreases e, 0int,
{
    match e {
        Element::Token { kind, text } => spec_text(sink, text@, settings, ind),
        Element::Node { kind, children } => spec_skip_seq(children@, 0, sink, settings, ind),
    }
}

/// The sink after the raw text under the elements of `cs` from position `i`
/// on is written through it.
pub open spec fn spec_skip_seq(
    cs: Seq<Element>,
    i: int,
    sink: SinkModel,
    settings: Settings,
    ind: nat,
) -> SinkModel
    decreases cs, cs.len() - i,
{
    if i < 0 || i >= cs.len() {
        sink
    } else {
        spec_skip_seq(cs, i + 1, spec_skip(cs[i], sink, settings, ind), settings, ind)
    }
}

/// Copies the raw text under an opaque subtree to the output, token by
/// token, with no whitespace synthesis at all.
#[verifier::loop_isolation(false)]
fn skip(node: &Element, state: &State, output: &mut Output)
    ensures
        final(output)@ == spec_skip(
            *node,
            old(output)@,
            state.spec_settings(),
            state@.indentation,
        ),
    decreases *node, 0int,
{
    match node {
        Element::Token { kind, text } => {
            output.text(text.as_str(), state);
        },
        Element::Node { kind, children } => {
            let n = children.len();
            let mut i: usize = 0;
            while i < n
                invariant
                    i <= n,
                    spec_skip_seq(
                        children@,
                        0,
                        old(output)@,
                        state.spec_settings(),
                        state@.indentation,
                    ) == spec_skip_seq(
                        children@,
                        i as int,
                        output@,
                        state.spec_settings(),
                        state@.indentation,
                    ),
                decreases n - i,
            {
                proof {
                    let ev = *node;
                    assert(decreases_to!(ev => ev->Node_children));
                    assert(decreases_to!(ev->Node_children => children@));
                    assert(decreases_to!(children@ => children@[i as int]));
                }
                skip(&children[i], state, output);
                i = i + 1;
            }
        },
    }
}

/// Verbatim preservation: with no directive pending, writing an opaque
/// subtree through the sink appends exactly its raw source text, and leaves
/// the boundary empty again.
pub proof fn lemma_verbatim_preservation(
    e: Element,
    sink: SinkModel,
    settings: Settings,
    ind: nat,
)
    requires
        sink.pending == Whitespace::Nothing,
    ensures
        spec_skip(e, sink, settings, ind).text == sink.text + raw_text(e),
        spec_skip(e, sink, settings, ind).pending == Whitespace::Nothing,
    decreases e, 0int,
{
    match e {
        Element::Token { kind, text } => {
            assert(ws_chars(Whitespace::Nothing, settings, ind) =~= Seq::<char>::empty());
            assert(spec_skip(e, sink, settings, ind).text =~= sink.text + raw_text(e));
        },
        Element::Node { kind, children } => {
            lemma_verbatim_preservation_seq(children@, 0, sink, settings, ind);
            assert(raw_text(e) == raw_text_seq(children@, 0));
        },
    }
}

/// Verbatim preservation over a range of siblings.
proof fn lemma_verbatim_preservation_seq(
    cs: Seq<Element>,
    i: int,
    sink: SinkModel,
    settings: Settings,
    ind: nat,
)
    requires
        sink.pending == Whitespace::Nothing,
    ensures
        spec_skip_seq(cs, i, sink, settings, ind).text == sink.text + raw_text_seq(cs, i),
        spec_skip_seq(cs, i, sink, settings, ind).pending == Whitespace::Nothing,
    decreases cs, cs.len() - i,
{
    if i < 0 || i >= cs.len() {
        assert(sink.text + raw_text_seq(cs, i) =~= sink.text);
    } else {
        assert(decreases_to!(cs => cs[i]));
        lemma_verbatim_preservation(cs[i], sink, settings, ind);
        let sink1 = spec_skip(cs[i], sink, settings, ind);
        lemma_verbatim_preservation_seq(cs, i + 1, sink1, settings, ind);
        assert(sink1.text + raw_text_seq(cs, i + 1) =~= sink.text + (raw_text(cs[i])
            + raw_text_seq(cs, i + 1)));
    }
}

/// The state and sink after one element is formatted.  A token realizes the
/// pending boundary and writes its text; an opaque node is copied verbatim;
/// any other node has its children formatted under its scope, and the layout
/// state is then restored to its checkpoint — unless the node's parent is a
/// `let` statement or an `if` expression, whose inner layout changes
/// deliberately persist into the following sibling.
pub open spec fn spec_format(
    e: Element,
    parent: Kind,
    st: StateModel,
    sink: SinkModel,
    settings: Settings,
) -> (StateModel, SinkModel)
    decreases e, 1int,
{
    match e {
        Element::Token { kind, text } => (st, spec_text(sink, text@, settings, st.indentation)),
        Element::Node { kind, children } => {
            if is_opaque(kind) {
                (st, spec_skip(e, sink, settings, st.indentation))
            } else {
                spec_format_children(e, parent, spec_scope_of(e, settings), st, sink, settings)
            }
        },
    }
}

/// The state and sink after a node's children are formatted under `scope`,
/// with the checkpoint restored unless the parent is a `let` statement or an
/// `if` expression.
pub open spec fn spec_format_children(
    e: Element,
    parent: Kind,
    scope: Scope,
    st: StateModel,
    sink: SinkModel,
    settings: Settings,
) -> (StateModel, SinkModel)
    decreases e, 0int,
{
    match e {
        Element::Node { kind, children } => {
            let r = spec_format_seq(children@, 0, Option::None, kind, scope, st, sink, settings);
            if parent == Kind::LetStmt || parent == Kind::IfExpr {
                r
            } else {
                (st, r.1)
            }
        },
        Element::Token { .. } => (st, sink),
    }
}

/// The walk over a node's children from position `i` on.  A whitespace
/// token becomes a `Low`-priority request carrying the spacing the source
/// had, which any structural rule may override.  Any other child resolves
/// its boundary against the previous non-trivia sibling `last` — reading the
/// pending directive as the source spacing — submits the answer, and is then
/// formatted itself.  The first non-trivia child has no boundary.
pub open spec fn spec_format_seq(
    cs: Seq<Element>,
    i: int,
    last: Option<Kind>,
    node_kind: Kind,
    scope: Scope,
    st: StateModel,
    sink: SinkModel,
    settings: Settings,
) -> (StateModel, SinkModel)
    decreases cs, cs.len() - i,
{
    if i < 0 || i >= cs.len() {
        (st, sink)
    } else {
        let c = cs[i];
        let ck = c.spec_kind();
        if c is Token && ck == Kind::Whitespace {
            spec_format_seq(
                cs,
                i + 1,
                last,
                node_kind,
                scope,
                st,
                spec_request(sink, spec_from_text(text_of(c)), Priority::Low),
                settings,
            )
        } else if last is None {
            let r = spec_format(c, node_kind, st, sink, settings);
            spec_format_seq(cs, i + 1, Option::Some(ck), node_kind, scope, r.0, r.1, settings)
        } else {
            let b = spec_resolve(last->0, sink.pending, ck, scope, node_kind, st);
            let sink1 = spec_request(sink, b.0, b.1);
            let r = spec_format(c, node_kind, b.2, sink1, settings);
            spec_format_seq(cs, i + 1, Option::Some(ck), node_kind, scope, r.0, r.1, settings)
        }
    }
}

/// Finds the padding flag of a node's first opening bracket.
#[verifier::loop_isolation(false)]
fn pad_of(node: &Element, settings: &Settings) -> (r: bool)
    requires
        node is Node,
    ensures
        r == spec_pad_of(children_of(*node), 0, *settings),
{
    match node {
        Element::Node { kind, children } => {
            let n = children.len();
            let mut i: usize = 0;
            while i < n
                invariant
                    i <= n,
                    spec_pad_of(children@, 0, *settings) == spec_pad_of(
                        children@,
                        i as int,
                        *settings,
                    ),
                decreases n - i,
            {
                let k = children[i].kind();
                if k == Kind::LParen {
                    return settings.pad_parenthesis;
                } else if k == Kind::LBrack {
                    return settings.pad_square_brackets;
                } else if k == Kind::LCurly {
                    return settings.pad_curly_braces;
                } else if k == Kind::LAngle {
                    return settings.pad_angled_brackets;
                }
                i = i + 1;
            }
            false
        },
        Element::Token { .. } => {
            proof {
                assert(false);
            }
            false
        },
    }
}

/// Picks the scope a node's children are formatted under.
fn scope_of(node: &Element, settings: &Settings) -> (r: Scope)
    requires
        node is Node,
    ensures
        r == spec_scope_of(*node, *settings),
{
    let k = node.kind();
    if k.list_kind() {
        let pad = pad_of(node, settings);
        list(node, pad)
    } else if k.compact_kind() {
        Scope::CompactList
    } else if k == Kind::MatchArmList || k == Kind::WhereClause {
        Scope::MultilineList
    } else if k == Kind::ItemList || k == Kind::AssocItemList {
        code(node, 0)
    } else if k == Kind::StmtList {
        code(node, 5)
    } else {
        Scope::Default
    }
}

/// Formats a node's children in source order, then restores the layout
/// checkpoint — unless the parent is a `let` statement or an `if`
/// expression, whose inner layout changes persist.
#[verifier::loop_isolation(false)]
fn format_children(
    node: &Element,
    state: &mut State,
    parent: Kind,
    scope: Scope,
    output: &mut Output,
)
    requires
        node is Node,
    ensures
        final(state)@ == spec_format_children(
            *node,
            parent,
            scope,
            old(state)@,
            old(output)@,
            old(state).spec_settings(),
        ).0,
        final(output)@ == spec_format_children(
            *node,
            parent,
            scope,
            old(state)@,
            old(output)@,
            old(state).spec_settings(),
        ).1,
        final(state).spec_settings() == old(state).spec_settings(),
    decreases *node, 0int,
{
    let save = state.save();
    match node {
        Element::Node { kind, children } => {
            let node_kind = *kind;
            let ghost settings = state.spec_settings();
            let n = children.len();
            let mut i: usize = 0;
            let mut last: Option<Kind> = Option::None;
            while i < n
                invariant
                    i <= n,
                    state.spec_settings() == settings,
                    spec_format_seq(
                        children@,
                        0,
                        Option::None,
                        node_kind,
                        scope,
                        old(state)@,
                        old(output)@,
                        settings,
                    ) == spec_format_seq(
                        children@,
                        i as int,
                        last,
                        node_kind,
                        scope,
                        state@,
                        output@,
                        settings,
                    ),
                decreases n - i,
            {
                proof {
                    let ev = *node;
                    assert(decreases_to!(ev => ev->Node_children));
                    assert(decreases_to!(ev->Node_children => children@));
                    assert(decreases_to!(children@ => children@[i as int]));
                }
                let ghost st_i = state@;
                let ghost sk_i = output@;
                let ghost last_i = last;
                let child = &children[i];
                let ck = child.kind();
                let mut ws_text: Option<&str> = Option::None;
                match child {
                    Element::Token { kind, text } => {
                        if *kind == Kind::Whitespace {
                            ws_text = Option::Some(text.as_str());
                        }
                    },
                    Element::Node { .. } => {},
                }
                match ws_text {
                    Option::Some(t) => {
                        output.whitespace(Whitespace::from_text(t), Priority::Low);
                        proof {
                            assert(spec_format_seq(
                                children@,
                                i as int,
                                last_i,
                                node_kind,
                                scope,
                                st_i,
                                sk_i,
                                settings,
                            ) == spec_format_seq(
                                children@,
                                i + 1,
                                last_i,
                                node_kind,
                                scope,
                                st_i,
                                spec_request(sk_i, spec_from_text(t@), Priority::Low),
                                settings,
                            ));
                        }
                    },
                    Option::None => {
                        match last {
                            Option::Some(l) => {
                                let middle = output.peek();
                                let wp = whitespace(l, middle, ck, scope, node_kind, state);
                                output.whitespace(wp.0, wp.1);
                            },
                            Option::None => {},
                        }
                        format_node(child, node_kind, state, output);
                        last = Option::Some(ck);
                        proof {
                            assert(spec_format_seq(
                                children@,
                                i as int,
                                last_i,
                                node_kind,
                                scope,
                                st_i,
                                sk_i,
                                settings,
                            ) == spec_format_seq(
                                children@,
                                i + 1,
                                last,
                                node_kind,
                                scope,
                                state@,
                                output@,
                                settings,
                            ));
                        }
                    },
                }
                i = i + 1;
            }
            if parent == Kind::LetStmt || parent == Kind::IfExpr {
            } else {
                state.restore(save);
            }
        },
        Element::Token { .. } => {
            proof {
                assert(false);
            }
        },
    }
}

/// Formats one element: a token realizes the pending boundary and writes its
/// text, an opaque node is copied verbatim, and any other node has its
/// children formatted under the scope its kind and contents select.
#[verifier::rlimit(30)]
pub fn format_node(node: &Element, parent: Kind, state: &mut State, output: &mut Output)
    ensures
        final(state)@ == spec_format(
            *node,
            parent,
            old(state)@,
            old(output)@,
            old(state).spec_settings(),
        ).0,
        final(output)@ == spec_format(
            *node,
            parent,
            old(state)@,
            old(output)@,
            old(state).spec_settings(),
        ).1,
        final(state).spec_settings() == old(state).spec_settings(),
    decreases *node, 1int,
{
    match node {
        Element::Token { kind, text } => {
            output.text(text.as_str(), state);
        },
        Element::Node { kind, children } => {
            if kind.opaque() {
                skip(node, state, output);
            } else {
                let scope = scope_of(node, state.settings());
                format_children(node, state, parent, scope, output);
            }
        },
    }
}


/// List trailing-separator law: a list whose last element before the
/// closing bracket is followed by a separator renders one element per line.
/// The classifier then picks the multiline scope; and under that scope the
/// resolver puts a line break after every separator — unless a comment
/// follows it and keeps the source spacing — and a line break before the
/// closing bracket.
pub proof fn lemma_list_trailing_separator(
    e: Element,
    pad: bool,
    left: Kind,
    middle: Whitespace,
    right: Kind,
    parent: Kind,
    st: StateModel,
)
    requires
        spec_trailing_sep(children_of(e), 0, false),
    ensures
        spec_classify_list(e, pad) == Scope::MultilineList,
        left == Kind::Comma && right != Kind::Comment && right != Kind::Comma ==> {
            let w = spec_resolve(left, middle, right, Scope::MultilineList, parent, st).0;
            w == Whitespace::LineBreak || w == Whitespace::LineBreaks(2)
        },
        is_close_bracket(right) ==> {
            let w = spec_resolve(left, middle, right, Scope::MultilineList, parent, st).0;
            w == Whitespace::LineBreak || w == Whitespace::LineBreaks(2)
        },
{
}

/// Every directive the resolver yields respects the blank-line cap, as long
/// as the source spacing handed to it does; together with the sink's own
/// cap, no realized boundary ever holds more than two line breaks.
pub proof fn lemma_resolver_capped(
    left: Kind,
    middle: Whitespace,
    right: Kind,
    scope: Scope,
    parent: Kind,
    st: StateModel,
)
    requires
        ws_capped(middle),
    ensures
        ws_capped(spec_resolve(left, middle, right, scope, parent, st).0),
{
}

} // verus!
