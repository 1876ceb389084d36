//! End-to-end rendering tests: real source text is parsed with
//! `ra_ap_syntax`, converted to the formatter's own tree, and rendered.

use pretty_rusty::element::Element;
use pretty_rusty::kind::Kind;
use pretty_rusty::settings::Settings;
use ra_ap_syntax::{Edition, NodeOrToken, SourceFile, SyntaxKind, SyntaxNode};

fn convert_kind(k: SyntaxKind) -> Kind {
    match k {
        SyntaxKind::L_PAREN => Kind::LParen,
        SyntaxKind::R_PAREN => Kind::RParen,
        SyntaxKind::L_BRACK => Kind::LBrack,
        SyntaxKind::R_BRACK => Kind::RBrack,
        SyntaxKind::L_CURLY => Kind::LCurly,
        SyntaxKind::R_CURLY => Kind::RCurly,
        SyntaxKind::L_ANGLE => Kind::LAngle,
        SyntaxKind::R_ANGLE => Kind::RAngle,
        SyntaxKind::PIPE => Kind::Pipe,
        SyntaxKind::PIPE2 => Kind::Pipe2,
        SyntaxKind::AMP => Kind::Amp,
        SyntaxKind::AMP2 => Kind::Amp2,
        SyntaxKind::COMMA => Kind::Comma,
        SyntaxKind::SEMICOLON => Kind::Semicolon,
        SyntaxKind::COLON => Kind::Colon,
        SyntaxKind::COLON2 => Kind::Colon2,
        SyntaxKind::DOT => Kind::Dot,
        SyntaxKind::DOT2 => Kind::Dot2,
        SyntaxKind::DOT2EQ => Kind::Dot2Eq,
        SyntaxKind::EQ => Kind::Eq,
        SyntaxKind::FAT_ARROW => Kind::FatArrow,
        SyntaxKind::PLUS => Kind::Plus,
        SyntaxKind::MINUS => Kind::Minus,
        SyntaxKind::STAR => Kind::Star,
        SyntaxKind::SLASH => Kind::Slash,
        SyntaxKind::PERCENT => Kind::Percent,
        SyntaxKind::CARET => Kind::Caret,
        SyntaxKind::SHL => Kind::Shl,
        SyntaxKind::SHR => Kind::Shr,
        SyntaxKind::QUESTION => Kind::Question,
        SyntaxKind::POUND => Kind::Pound,
        SyntaxKind::BANG => Kind::Bang,
        SyntaxKind::FOR_KW => Kind::ForKw,
        SyntaxKind::CONST_KW => Kind::ConstKw,
        SyntaxKind::WHITESPACE => Kind::Whitespace,
        SyntaxKind::COMMENT => Kind::Comment,
        SyntaxKind::SOURCE_FILE => Kind::SourceFile,
        SyntaxKind::ERROR => Kind::Error,
        SyntaxKind::TOKEN_TREE => Kind::TokenTree,
        SyntaxKind::USE_TREE_LIST => Kind::UseTreeList,
        SyntaxKind::ARG_LIST => Kind::ArgList,
        SyntaxKind::PARAM_LIST => Kind::ParamList,
        SyntaxKind::GENERIC_PARAM_LIST => Kind::GenericParamList,
        SyntaxKind::GENERIC_ARG_LIST => Kind::GenericArgList,
        SyntaxKind::TUPLE_FIELD_LIST => Kind::TupleFieldList,
        SyntaxKind::VARIANT_LIST => Kind::VariantList,
        SyntaxKind::RECORD_FIELD_LIST => Kind::RecordFieldList,
        SyntaxKind::RECORD_EXPR_FIELD_LIST => Kind::RecordExprFieldList,
        SyntaxKind::TUPLE_EXPR => Kind::TupleExpr,
        SyntaxKind::TUPLE_TYPE => Kind::TupleType,
        SyntaxKind::TUPLE_STRUCT_PAT => Kind::TupleStructPat,
        SyntaxKind::TUPLE_PAT => Kind::TuplePat,
        SyntaxKind::INDEX_EXPR => Kind::IndexExpr,
        SyntaxKind::SLICE_PAT => Kind::SlicePat,
        SyntaxKind::SLICE_TYPE => Kind::SliceType,
        SyntaxKind::ARRAY_TYPE => Kind::ArrayType,
        SyntaxKind::ARRAY_EXPR => Kind::ArrayExpr,
        SyntaxKind::PAREN_TYPE => Kind::ParenType,
        SyntaxKind::VISIBILITY => Kind::Visibility,
        SyntaxKind::ATTR => Kind::Attr,
        SyntaxKind::PATH_SEGMENT => Kind::PathSegment,
        SyntaxKind::PAREN_EXPR => Kind::ParenExpr,
        SyntaxKind::PAREN_PAT => Kind::ParenPat,
        SyntaxKind::MATCH_ARM_LIST => Kind::MatchArmList,
        SyntaxKind::WHERE_CLAUSE => Kind::WhereClause,
        SyntaxKind::ITEM_LIST => Kind::ItemList,
        SyntaxKind::ASSOC_ITEM_LIST => Kind::AssocItemList,
        SyntaxKind::STMT_LIST => Kind::StmtList,
        SyntaxKind::USE => Kind::Use,
        SyntaxKind::MODULE => Kind::Module,
        SyntaxKind::FN => Kind::Fn,
        SyntaxKind::STRUCT => Kind::Struct,
        SyntaxKind::IMPL => Kind::Impl,
        SyntaxKind::ENUM => Kind::Enum,
        SyntaxKind::UNION => Kind::Union,
        SyntaxKind::TRAIT => Kind::Trait,
        SyntaxKind::MACRO_RULES => Kind::MacroRules,
        SyntaxKind::MACRO_CALL => Kind::MacroCall,
        SyntaxKind::TYPE_ALIAS => Kind::TypeAlias,
        SyntaxKind::CONST => Kind::Const,
        SyntaxKind::EXPR_STMT => Kind::ExprStmt,
        SyntaxKind::LET_STMT => Kind::LetStmt,
        SyntaxKind::LET_ELSE => Kind::LetElse,
        SyntaxKind::IF_EXPR => Kind::IfExpr,
        SyntaxKind::BLOCK_EXPR => Kind::BlockExpr,
        SyntaxKind::CLOSURE_EXPR => Kind::ClosureExpr,
        SyntaxKind::PREFIX_EXPR => Kind::PrefixExpr,
        SyntaxKind::PTR_TYPE => Kind::PtrType,
        SyntaxKind::REF_TYPE => Kind::RefType,
        SyntaxKind::REF_EXPR => Kind::RefExpr,
        SyntaxKind::REF_PAT => Kind::RefPat,
        SyntaxKind::SELF_PARAM => Kind::SelfParam,
        SyntaxKind::CFG_ATTR_META => Kind::Meta,
        SyntaxKind::CFG_META => Kind::Meta,
        SyntaxKind::KEY_VALUE_META => Kind::Meta,
        SyntaxKind::PATH_META => Kind::Meta,
        SyntaxKind::TOKEN_TREE_META => Kind::Meta,
        SyntaxKind::UNSAFE_META => Kind::Meta,
        SyntaxKind::PATH => Kind::Path,
        SyntaxKind::MATCH_ARM => Kind::MatchArm,
        SyntaxKind::WHERE_PRED => Kind::WherePred,
        SyntaxKind::VARIANT => Kind::Variant,
        SyntaxKind::RECORD_FIELD => Kind::RecordField,
        _ => Kind::Other,
    }
}

fn convert_node(n: &SyntaxNode) -> Element {
    let mut children: Vec<Element> = Vec::new();
    for child in n.children_with_tokens() {
        match child {
            NodeOrToken::Node(node) => children.push(convert_node(&node)),
            NodeOrToken::Token(tok) => children.push(Element::Token {
                kind: convert_kind(tok.kind()),
                text: tok.text().to_string(),
            }),
        }
    }
    Element::Node { kind: convert_kind(n.kind()), children }
}

fn fmt(source: &str, settings: Settings) -> String {
    let root = SourceFile::parse(source, Edition::CURRENT).syntax_node();
    pretty_rusty::format_to_string(&convert_node(&root), settings)
}

fn plain() -> Settings {
    let mut s = Settings::default();
    s.final_newline = false;
    s
}

#[test]
fn trailing_comma_renders_multiline() {
    let out = fmt("fn f(a:i32,b:i32,)->i32{a+b}", plain());
    assert_eq!(out, "fn f(\n\ta: i32,\n\tb: i32,\n) -> i32 { a + b }");
}

#[test]
fn no_trailing_comma_renders_compact() {
    let out = fmt("fn f(a:i32,b:i32)->i32{a+b}", plain());
    assert_eq!(out, "fn f(a: i32, b: i32) -> i32 { a + b }");
}

#[test]
fn declarations_get_one_blank_line() {
    let none = fmt("fn a() {}\nfn b() {}", plain());
    let many = fmt("fn a() {}\n\n\n\n\nfn b() {}", plain());
    assert_eq!(none, "fn a() { }\n\nfn b() { }");
    assert_eq!(many, "fn a() { }\n\nfn b() { }");
}

#[test]
fn macro_body_is_verbatim() {
    let out = fmt("m!{ @@  ##\n   $$ }", plain());
    assert_eq!(out, "m!{ @@  ##\n   $$ }");
}

#[test]
fn invalid_macro_tokens_are_verbatim() {
    let src = "m!{fn fn ,,, 12zz !}";
    let out = fmt(src, plain());
    assert_eq!(out, src);
}

#[test]
fn final_newline_off_strips_trailing_breaks() {
    let none = fmt("fn a() {}", plain());
    let many = fmt("fn a() {}\n\n\n", plain());
    assert_eq!(none, "fn a() { }");
    assert_eq!(many, "fn a() { }");
}

#[test]
fn final_newline_on_adds_exactly_one_break() {
    let mut settings = Settings::default();
    settings.final_newline = true;
    let none = fmt("fn a() {}", settings);
    let many = fmt("fn a() {}\n\n\n", settings);
    assert_eq!(none, "fn a() { }\n");
    assert_eq!(many, "fn a() { }\n");
}

#[test]
fn formatting_is_idempotent_on_multiline_list() {
    let first = fmt("fn f(a:i32,b:i32,)->i32{a+b}", plain());
    let second = fmt(&first, plain());
    assert_eq!(first, second);
}

#[test]
fn formatting_is_idempotent_on_compact_list() {
    let first = fmt("fn f(a:i32,b:i32)->i32{a+b}", plain());
    let second = fmt(&first, plain());
    assert_eq!(first, second);
}

#[test]
fn formatting_is_idempotent_on_items() {
    let first = fmt("fn a() {}\n\n\nfn b() {}\n", plain());
    let second = fmt(&first, plain());
    assert_eq!(first, second);
}

#[test]
fn spaces_indentation_unit() {
    let mut settings = Settings::default();
    settings.final_newline = false;
    settings.indentation = 4;
    let out = fmt("fn f(a:i32,b:i32,)->i32{a+b}", settings);
    assert_eq!(out, "fn f(\n    a: i32,\n    b: i32,\n) -> i32 { a + b }");
}

#[test]
fn padded_parenthesis_setting() {
    let mut settings = Settings::default();
    settings.final_newline = false;
    settings.pad_parenthesis = true;
    let out = fmt("fn f(a:i32,b:i32)->i32{a+b}", settings);
    assert_eq!(out, "fn f( a: i32, b: i32 ) -> i32 { a + b }");
}

#[test]
fn statements_keep_at_most_one_blank_line() {
    let out = fmt("fn f(){let a=1;\n\n\nlet b=2;a+b}", plain());
    assert_eq!(out, "fn f() {\n\tlet a = 1;\n\n\tlet b = 2;\n\ta + b\n}");
}

#[test]
fn method_chain_indents_one_extra_level() {
    let out = fmt("fn f(){a\n.b()\n.c()}", plain());
    assert_eq!(out, "fn f() {\n\ta\n\t\t.b()\n\t\t.c()\n}");
}

#[test]
fn match_arms_render_one_per_line() {
    let out = fmt("fn f(){match x{1=>a,2=>b,}}", plain());
    assert_eq!(out, "fn f() {\n\tmatch x {\n\t\t1 => a,\n\t\t2 => b,\n\t}\n}");
}

#[test]
fn use_items_group_on_adjacent_lines() {
    let out = fmt("use a;\nuse b;\n\nuse c;", plain());
    assert_eq!(out, "use a;\nuse b;\n\nuse c;");
}

#[test]
fn comment_after_separator_stays_on_its_line() {
    let out = fmt("fn f(x:i32, // c\ny:i32,)->i32{x}", plain());
    assert_eq!(out, "fn f(\n\tx: i32, // c\n\ty: i32,\n) -> i32 { x }");
}

#[test]
fn record_without_trailing_comma_is_padded() {
    let out = fmt("struct S{a:i32,b:i32}", plain());
    assert_eq!(out, "struct S { a: i32, b: i32 }");
}

#[test]
fn record_with_trailing_comma_is_multiline() {
    let out = fmt("struct S{a:i32,b:i32,}", plain());
    assert_eq!(out, "struct S {\n\ta: i32,\n\tb: i32,\n}");
}

#[test]
fn impl_methods_get_one_blank_line() {
    let out = fmt("impl X{fn a(&self){}\nfn b(&self){}}", plain());
    assert_eq!(out, "impl X {\n\tfn a(&self) { }\n\n\tfn b(&self) { }\n}");
}

#[test]
fn let_initializer_chain_survives_to_the_semicolon() {
    let out = fmt("fn f(){let a=x\n.b();c}", plain());
    assert_eq!(out, "fn f() {\n\tlet a = x\n\t\t.b();\n\tc\n}");
}

#[test]
fn let_initializer_chain_moves_let_else_to_a_new_line() {
    let out = fmt("fn f(){let Some(a)=x\n.b() else{return;};}", plain());
    assert_eq!(
        out,
        "fn f() {\n\tlet Some(a) = x\n\t\t.b()\n\telse {\n\t\treturn;\n\t};\n}"
    );
}

#[test]
fn closure_parameters_render_between_bars() {
    let out = fmt("fn f(){let g=|a,b|a;}", plain());
    assert_eq!(out, "fn f() {\n\tlet g = |a, b| a;\n}");
}

#[test]
fn index_expression_binds_tight() {
    let out = fmt("fn f(){let x=v[0];}", plain());
    assert_eq!(out, "fn f() {\n\tlet x = v[0];\n}");
}

#[test]
fn generic_arguments_attach_to_their_name() {
    let out = fmt("fn f(x:V<T,U>){}", plain());
    assert_eq!(out, "fn f(x: V<T, U>) { }");
}

#[test]
fn attribute_goes_on_its_own_line() {
    let out = fmt("#[derive(Debug)]\nstruct S{a:i32}", plain());
    assert_eq!(out, "#[derive(Debug)]\nstruct S { a: i32 }");
}

#[test]
fn where_clause_starts_its_own_lines() {
    let out = fmt("fn f<T>()->T where T:Y{x}", plain());
    assert_eq!(out, "fn f<T>() -> T\nwhere\n\tT: Y\n{ x }");
}

#[test]
fn modules_stay_on_adjacent_lines() {
    let out = fmt("mod a;\nmod b;", plain());
    assert_eq!(out, "mod a;\nmod b;");
}

#[test]
fn reference_sigil_binds_tight() {
    let out = fmt("fn f(){let a=&x;}", plain());
    assert_eq!(out, "fn f() {\n\tlet a = &x;\n}");
}
