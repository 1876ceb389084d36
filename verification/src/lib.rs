//! A deterministic pretty-printer for a fixed concrete syntax tree.
//!
//! The formatter walks an [`element::Element`] tree, decides the whitespace
//! at every boundary between adjacent tokens, and renders the result as
//! text.  Every rendering decision is structural: it is derived from node
//! kinds, trailing separators and emptiness, never from a measured line
//! width.  Unparseable subtrees and literal macro bodies are copied verbatim.

use vstd::prelude::*;

pub mod element;
pub mod kind;
pub mod logic;
pub mod output;
pub mod settings;
pub mod state;

pub use element::Element;
pub use output::Target;
pub use settings::Settings;
use kind::Kind;
use output::Output;
use output::SinkModel;
use output::Whitespace;
use output::Priority;
use output::spec_finish;
use state::State;
use state::StateModel;

verus! {

/// The text one formatting pass renders for `e` under `settings`: the tree
/// is walked from a fresh state and sink, and the pass ends with the
/// final-newline policy applied at `Guaranteed` priority.
pub open spec fn formatted(e: Element, settings: Settings) -> Seq<char> {
    let st0 = StateModel { indentation: 0, chained: false };
    let sink0 = SinkModel {
        pending: Whitespace::Nothing,
        priority: Priority::High,
        text: Seq::empty(),
    };
    let r = logic::spec_format(e, Kind::SourceFile, st0, sink0, settings);
    spec_finish(r.1, settings, r.0.indentation)
}

/// Runs one formatting pass over `node` and returns the rendered text.
pub fn format_to_string(node: &Element, settings: Settings) -> (r: String)
    ensures
        r@ == formatted(*node, settings),
{
    let mut state = State::new(settings);
    let mut output = Output::new();
    logic::format_node(node, Kind::SourceFile, &mut state, &mut output);
    output.finish(&state)
}

/// Runs one formatting pass over `node` and hands the rendered text to
/// `target`.
pub fn format_node<T: Target>(node: &Element, settings: Settings, target: &mut T)
    ensures
        final(target).contents() == old(target).contents() + formatted(*node, settings),
{
    let text = format_to_string(node, settings);
    target.emit(text.as_str(), &settings);
}

} // verus!
