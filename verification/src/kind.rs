//! The closed set of tags a tree element can carry.
//!
//! A [`Kind`] is an opaque tag: the formatter never inspects grammar beyond
//! testing membership in the named subsets below (brackets, separators,
//! declaration kinds, chain operators, and so on).  Tags that none of the
//! rules distinguish are mapped to [`Kind::Other`] by the caller.

use vstd::prelude::*;

verus! {

/// The tag of one node or token of the tree.
#[derive(Clone, Copy, Debug, PartialEq, Eq, Structural)]
pub enum Kind {
    // Bracket and punctuation tokens.
    LParen,
    RParen,
    LBrack,
    RBrack,
    LCurly,
    RCurly,
    LAngle,
    RAngle,
    Pipe,
    Pipe2,
    Amp,
    Amp2,
    Comma,
    Semicolon,
    Colon,
    Colon2,
    Dot,
    Dot2,
    Dot2Eq,
    Eq,
    FatArrow,
    Plus,
    Minus,
    Star,
    Slash,
    Percent,
    Caret,
    Shl,
    Shr,
    Question,
    Pound,
    Bang,
    // Keyword tokens the rules single out.
    ForKw,
    ConstKw,
    // Trivia tokens.
    Whitespace,
    Comment,
    // The root.
    SourceFile,
    // Opaque regions: copied verbatim, never reflowed.
    Error,
    TokenTree,
    // List-like nodes.
    UseTreeList,
    ArgList,
    ParamList,
    GenericParamList,
    GenericArgList,
    TupleFieldList,
    VariantList,
    RecordFieldList,
    RecordExprFieldList,
    TupleExpr,
    TupleType,
    TupleStructPat,
    TuplePat,
    IndexExpr,
    SlicePat,
    SliceType,
    ArrayType,
    ArrayExpr,
    ParenType,
    Visibility,
    // Always-compact nodes.
    Attr,
    PathSegment,
    ParenExpr,
    ParenPat,
    // Always-multiline nodes.
    MatchArmList,
    WhereClause,
    // Code bodies.
    ItemList,
    AssocItemList,
    StmtList,
    // Declarations.
    Use,
    Module,
    Fn,
    Struct,
    Impl,
    Enum,
    Union,
    Trait,
    MacroRules,
    MacroCall,
    TypeAlias,
    Const,
    // Statements and expressions the rules single out.
    ExprStmt,
    LetStmt,
    LetElse,
    IfExpr,
    BlockExpr,
    ClosureExpr,
    PrefixExpr,
    PtrType,
    RefType,
    RefExpr,
    RefPat,
    SelfParam,
    Meta,
    Path,
    MatchArm,
    WherePred,
    Variant,
    RecordField,
    // Every tag the rules do not distinguish.
    Other,
}

/// Tokens that open a bracketed region (the closure bar opens one too).
pub open spec fn is_open_delim(k: Kind) -> bool {
    k == Kind::LParen || k == Kind::LBrack || k == Kind::LCurly || k == Kind::LAngle || k
        == Kind::Pipe
}

/// Tokens that close a bracketed region (the closure bar closes one too).
pub open spec fn is_close_delim(k: Kind) -> bool {
    k == Kind::RParen || k == Kind::RBrack || k == Kind::RCurly || k == Kind::RAngle || k
        == Kind::Pipe
}

/// Proper closing brackets, as the trailing-separator scan recognizes them.
pub open spec fn is_close_bracket(k: Kind) -> bool {
    k == Kind::RParen || k == Kind::RBrack || k == Kind::RCurly || k == Kind::RAngle
}

/// List separators.
pub open spec fn is_separator(k: Kind) -> bool {
    k == Kind::Comma || k == Kind::Semicolon
}

/// Short declarations that group on adjacent lines when repeated.
pub open spec fn is_small_item(k: Kind) -> bool {
    k == Kind::Use || k == Kind::Const || k == Kind::TypeAlias
}

/// Top-level declarations that demand a blank line on both sides.
pub open spec fn is_item(k: Kind) -> bool {
    k == Kind::Use || k == Kind::Module || k == Kind::Fn || k == Kind::Struct || k == Kind::Impl
        || k == Kind::Enum || k == Kind::Union || k == Kind::MacroRules || k == Kind::MacroCall || k
        == Kind::TypeAlias || k == Kind::Trait
}

/// Statements inside a multiline body.
pub open spec fn is_stmt(k: Kind) -> bool {
    k == Kind::ExprStmt || k == Kind::LetStmt
}

/// Operators that continue a chain when they start a line.
pub open spec fn is_chain_op(k: Kind) -> bool {
    k == Kind::Eq || k == Kind::Dot || k == Kind::Pipe || k == Kind::Pipe2 || k == Kind::Amp2 || k
        == Kind::FatArrow || k == Kind::Plus || k == Kind::Minus || k == Kind::Star || k
        == Kind::Slash || k == Kind::Percent || k == Kind::Amp || k == Kind::Caret || k == Kind::Shl
        || k == Kind::Shr || k == Kind::ForKw
}

/// Path and range punctuation that binds tight on both sides.
pub open spec fn is_tight_punct(k: Kind) -> bool {
    k == Kind::Colon2 || k == Kind::Dot2 || k == Kind::Dot2Eq
}

/// Declarations whose attribute goes on its own line.
pub open spec fn is_attr_owner(k: Kind) -> bool {
    k == Kind::Fn || k == Kind::Struct || k == Kind::Enum || k == Kind::Union || k == Kind::Variant
        || k == Kind::RecordField || k == Kind::MacroRules
}

/// Parents in which an ampersand is a reference sigil, not an operator.
pub open spec fn is_ref_parent(k: Kind) -> bool {
    k == Kind::SelfParam || k == Kind::RefType || k == Kind::RefExpr || k == Kind::RefPat
}

/// Parents in which a bang binds tight to what follows.
pub open spec fn is_bang_parent(k: Kind) -> bool {
    k == Kind::Attr || k == Kind::MacroCall
}

/// Parents in which a path binds tight to what follows.
pub open spec fn is_tight_path_parent(k: Kind) -> bool {
    k == Kind::Meta || k == Kind::TupleStructPat
}

/// Parameter-shaped lists that attach directly to the preceding name.
pub open spec fn is_param_like_list(k: Kind) -> bool {
    k == Kind::ParamList || k == Kind::TupleFieldList || k == Kind::GenericParamList || k
        == Kind::GenericArgList
}

/// Parents in which star, plus, minus and bang are prefix operators.
pub open spec fn is_prefix_parent(k: Kind) -> bool {
    k == Kind::PrefixExpr || k == Kind::PtrType
}

/// Tokens that act as prefix operators under a prefix parent.
pub open spec fn is_prefix_op(k: Kind) -> bool {
    k == Kind::Star || k == Kind::Plus || k == Kind::Minus || k == Kind::Bang
}

/// Bodies that end an open operator chain.
pub open spec fn is_chain_end(k: Kind) -> bool {
    k == Kind::LetElse || k == Kind::BlockExpr
}

/// Containers whose direct children are top-level declarations.
pub open spec fn is_top_level(k: Kind) -> bool {
    k == Kind::AssocItemList || k == Kind::ItemList || k == Kind::SourceFile
}

/// Nodes rendered by the list formatter, under the padding settings of their
/// bracket shape.
pub open spec fn is_list_kind(k: Kind) -> bool {
    k == Kind::UseTreeList || k == Kind::ArgList || k == Kind::ParamList || k
        == Kind::GenericParamList || k == Kind::TupleFieldList || k == Kind::VariantList || k
        == Kind::RecordFieldList || k == Kind::TupleExpr || k == Kind::TupleType || k
        == Kind::TupleStructPat || k == Kind::TuplePat || k == Kind::IndexExpr || k
        == Kind::RecordExprFieldList || k == Kind::SlicePat || k == Kind::SliceType || k
        == Kind::ArrayType || k == Kind::ArrayExpr || k == Kind::GenericArgList || k
        == Kind::ParenType || k == Kind::Visibility
}

/// Nodes that always render compact.
pub open spec fn is_compact_kind(k: Kind) -> bool {
    k == Kind::Attr || k == Kind::PathSegment || k == Kind::ParenExpr || k == Kind::ParenPat
}

/// Opaque regions: an unparseable subtree or a literal macro body.
pub open spec fn is_opaque(k: Kind) -> bool {
    k == Kind::Error || k == Kind::TokenTree
}

impl Kind {
    /// Runs the [`is_open_delim`] test.
    pub fn open_delim(self) -> (r: bool)
        ensures
            r == is_open_delim(self),
    {
        matches!(self, Kind::LParen | Kind::LBrack | Kind::LCurly | Kind::LAngle | Kind::Pipe)
    }

    /// Runs the [`is_close_delim`] test.
    pub fn close_delim(self) -> (r: bool)
        ensures
            r == is_close_delim(self),
    {
        matches!(self, Kind::RParen | Kind::RBrack | Kind::RCurly | Kind::RAngle | Kind::Pipe)
    }

    /// Runs the [`is_close_bracket`] test.
    pub fn close_bracket(self) -> (r: bool)
        ensures
            r == is_close_bracket(self),
    {
        matches!(self, Kind::RParen | Kind::RBrack | Kind::RCurly | Kind::RAngle)
    }

    /// Runs the [`is_separator`] test.
    pub fn separator(self) -> (r: bool)
        ensures
            r == is_separator(self),
    {
        matches!(self, Kind::Comma | Kind::Semicolon)
    }

    /// Runs the [`is_small_item`] test.
    pub fn small_item(self) -> (r: bool)
        ensures
            r == is_small_item(self),
    {
        matches!(self, Kind::Use | Kind::Const | Kind::TypeAlias)
    }

    /// Runs the [`is_item`] test.
    pub fn item(self) -> (r: bool)
        ensures
            r == is_item(self),
    {
        matches!(
            self,
            Kind::Use | Kind::Module | Kind::Fn | Kind::Struct | Kind::Impl | Kind::Enum
                | Kind::Union | Kind::MacroRules | Kind::MacroCall | Kind::TypeAlias | Kind::Trait
        )
    }

    /// Runs the [`is_stmt`] test.
    pub fn stmt(self) -> (r: bool)
        ensures
            r == is_stmt(self),
    {
        matches!(self, Kind::ExprStmt | Kind::LetStmt)
    }

    /// Runs the [`is_chain_op`] test.
    pub fn chain_op(self) -> (r: bool)
        ensures
            r == is_chain_op(self),
    {
        matches!(
            self,
            Kind::Eq | Kind::Dot | Kind::Pipe | Kind::Pipe2 | Kind::Amp2 | Kind::FatArrow
                | Kind::Plus | Kind::Minus | Kind::Star | Kind::Slash | Kind::Percent | Kind::Amp
                | Kind::Caret | Kind::Shl | Kind::Shr | Kind::ForKw
        )
    }

    /// Runs the [`is_tight_punct`] test.
    pub fn tight_punct(self) -> (r: bool)
        ensures
            r == is_tight_punct(self),
    {
        matches!(self, Kind::Colon2 | Kind::Dot2 | Kind::Dot2Eq)
    }

    /// Runs the [`is_attr_owner`] test.
    pub fn attr_owner(self) -> (r: bool)
        ensures
            r == is_attr_owner(self),
    {
        matches!(
            self,
            Kind::Fn | Kind::Struct | Kind::Enum | Kind::Union | Kind::Variant | Kind::RecordField
                | Kind::MacroRules
        )
    }

    /// Runs the [`is_ref_parent`] test.
    pub fn ref_parent(self) -> (r: bool)
        ensures
            r == is_ref_parent(self),
    {
        matches!(self, Kind::SelfParam | Kind::RefType | Kind::RefExpr | Kind::RefPat)
    }

    /// Runs the [`is_bang_parent`] test.
    pub fn bang_parent(self) -> (r: bool)
        ensures
            r == is_bang_parent(self),
    {
        matches!(self, Kind::Attr | Kind::MacroCall)
    }

    /// Runs the [`is_tight_path_parent`] test.
    pub fn tight_path_parent(self) -> (r: bool)
        ensures
            r == is_tight_path_parent(self),
    {
        matches!(self, Kind::Meta | Kind::TupleStructPat)
    }

    /// Runs the [`is_param_like_list`] test.
    pub fn param_like_list(self) -> (r: bool)
        ensures
            r == is_param_like_list(self),
    {
        matches!(
            self,
            Kind::ParamList | Kind::TupleFieldList | Kind::GenericParamList | Kind::GenericArgList
        )
    }

    /// Runs the [`is_prefix_parent`] test.
    pub fn prefix_parent(self) -> (r: bool)
        ensures
            r == is_prefix_parent(self),
    {
        matches!(self, Kind::PrefixExpr | Kind::PtrType)
    }

    /// Runs the [`is_prefix_op`] test.
    pub fn prefix_op(self) -> (r: bool)
        ensures
            r == is_prefix_op(self),
    {
        matches!(self, Kind::Star | Kind::Plus | Kind::Minus | Kind::Bang)
    }

    /// Runs the [`is_chain_end`] test.
    pub fn chain_end(self) -> (r: bool)
        ensures
            r == is_chain_end(self),
    {
        matches!(self, Kind::LetElse | Kind::BlockExpr)
    }

    /// Runs the [`is_top_level`] test.
    pub fn top_level(self) -> (r: bool)
        ensures
            r == is_top_level(self),
    {
        matches!(self, Kind::AssocItemList | Kind::ItemList | Kind::SourceFile)
    }

    /// Runs the [`is_list_kind`] test.
    pub fn list_kind(self) -> (r: bool)
        ensures
            r == is_list_kind(self),
    {
        matches!(
            self,
            Kind::UseTreeList | Kind::ArgList | Kind::ParamList | Kind::GenericParamList
                | Kind::TupleFieldList | Kind::VariantList | Kind::RecordFieldList
                | Kind::TupleExpr | Kind::TupleType | Kind::TupleStructPat | Kind::TuplePat
                | Kind::IndexExpr | Kind::RecordExprFieldList | Kind::SlicePat | Kind::SliceType
                | Kind::ArrayType | Kind::ArrayExpr | Kind::GenericArgList | Kind::ParenType
                | Kind::Visibility
        )
    }

    /// Runs the [`is_compact_kind`] test.
    pub fn compact_kind(self) -> (r: bool)
        ensures
            r == is_compact_kind(self),
    {
        matches!(self, Kind::Attr | Kind::PathSegment | Kind::ParenExpr | Kind::ParenPat)
    }

    /// Runs the [`is_opaque`] test.
    pub fn opaque(self) -> (r: bool)
        ensures
            r == is_opaque(self),
    {
        matches!(self, Kind::Error | Kind::TokenTree)
    }
}

} // verus!
