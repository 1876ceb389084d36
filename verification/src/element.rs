//! The tree the formatter consumes.
//!
//! An [`Element`] is either a node, with a tag and an ordered sequence of
//! children, or a token, with a tag and its raw source text.  The tree is an
//! immutable input to one formatting pass; child order is source order.

use vstd::prelude::*;
use vstd::string::StrSliceExecFns;

use crate::kind::Kind;

verus! {

/// One element of the tree: an inner node or a leaf token.
#[derive(Debug)]
pub enum Element {
    Node { kind: Kind, children: Vec<Element> },
    Token { kind: Kind, text: String },
}

impl Element {
    /// The tag of this element.
    pub open spec fn spec_kind(self) -> Kind {
        match self {
            Element::Node { kind, .. } => kind,
            Element::Token { kind, .. } => kind,
        }
    }

    /// Returns the tag of this element.
    pub fn kind(&self) -> (k: Kind)
        ensures
            k == self.spec_kind(),
    {
        match self {
            Element::Node { kind, .. } => *kind,
            Element::Token { kind, .. } => *kind,
        }
    }
}

/// The children of an element: a token has none.
pub open spec fn children_of(e: Element) -> Seq<Element> {
    match e {
        Element::Node { kind, children } => children@,
        Element::Token { .. } => Seq::empty(),
    }
}

/// The text of a token element; a node has none of its own.
pub open spec fn text_of(e: Element) -> Seq<char> {
    match e {
        Element::Token { kind, text } => text@,
        Element::Node { .. } => Seq::empty(),
    }
}

/// The raw source text under an element: every token's text, in order,
/// with nothing added and nothing removed.
pub open spec fn raw_text(e: Element) -> Seq<char>
    decreases e, 0int,
{
    match e {
        Element::Token { kind, text } => text@,
        Element::Node { kind, children } => raw_text_seq(children@, 0),
    }
}

/// The raw source text under the elements of `cs` from position `i` on.
pub open spec fn raw_text_seq(cs: Seq<Element>, i: int) -> Seq<char>
    decreases cs, cs.len() - i,
{
    if i < 0 || i >= cs.len() {
        Seq::empty()
    } else {
        raw_text(cs[i]) + raw_text_seq(cs, i + 1)
    }
}

/// The length of the text under an element, not counting whitespace tokens.
/// This is the shortness measure of the block classifier.
pub open spec fn content_len(e: Element) -> nat
    decreases e, 0int,
{
    match e {
        Element::Token { kind, text } => if kind == Kind::Whitespace {
            0
        } else {
            text@.len()
        },
        Element::Node { kind, children } => content_len_seq(children@, 0),
    }
}

/// The summed content length of the elements of `cs` from position `i` on.
pub open spec fn content_len_seq(cs: Seq<Element>, i: int) -> nat
    decreases cs, cs.len() - i,
{
    if i < 0 || i >= cs.len() {
        0
    } else {
        content_len(cs[i]) + content_len_seq(cs, i + 1)
    }
}

/// `n`, capped at `cap`.
pub open spec fn capped(n: nat, cap: nat) -> nat {
    if n <= cap {
        n
    } else {
        cap
    }
}

/// Returns the content length of `e`, capped at `cap`.  The cap keeps the
/// count inside the machine range; the classifier only compares the result
/// against a bound no larger than the cap.
#[verifier::loop_isolation(false)]
pub fn content_len_capped(e: &Element, cap: usize) -> (r: usize)
    ensures
        r as nat == capped(content_len(*e), cap as nat),
    decreases *e, 0int,
{
    match e {
        Element::Token { kind, text } => {
            if *kind == Kind::Whitespace {
                0
            } else {
                let l = text.as_str().unicode_len();
                if l > cap {
                    cap
                } else {
                    l
                }
            }
        },
        Element::Node { kind, children } => {
            let n = children.len();
            let mut acc: usize = 0;
            let mut i: usize = 0;
            while i < n
                invariant
                    i <= n,
                    n == children@.len(),
                    acc <= cap,
                    capped(acc as nat + content_len_seq(children@, i as int), cap as nat) == capped(
                        content_len_seq(children@, 0),
                        cap as nat,
                    ),
                decreases n - i,
            {
                proof {
                    let ev = *e;
                    assert(decreases_to!(ev => ev->Node_children));
                    assert(decreases_to!(ev->Node_children => children@));
                    assert(decreases_to!(children@ => children@[i as int]));
                }
                let c = content_len_capped(&children[i], cap);
                proof {
                    assert(capped(
                        acc as nat + capped(content_len(children@[i as int]), cap as nat)
                            + content_len_seq(children@, i + 1),
                        cap as nat,
                    ) == capped(acc as nat + content_len_seq(children@, i as int), cap as nat));
                }
                if c >= cap - acc {
                    acc = cap;
                } else {
                    acc = acc + c;
                }
                i = i + 1;
            }
            acc
        },
    }
}

} // verus!
