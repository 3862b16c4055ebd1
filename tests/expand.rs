use global_asm_expand::ast::{
    Expr, ExprKind, LitKind, StrStyle, Token, TokenKind, TokenStream, VisibilityKind,
    DUMMY_NODE_ID,
};
use global_asm_expand::diagnostic::{Diagnostic, Level};
use global_asm_expand::expand::{build_item, expand_global_asm, expr_to_string, Expansion, ExtCtxt};
use global_asm_expand::ast::{GlobalAsm, ItemKind};
use global_asm_expand::span::Span;

const DEF_SITE: u32 = 3;

fn call_span() -> Span {
    Span::new(100, 120, 0)
}

fn arg_span() -> Span {
    Span::new(112, 119, 0)
}

fn literal_tokens(text: &str) -> TokenStream {
    TokenStream::new(vec![Token {
        kind: TokenKind::Literal(text.to_string()),
        span: arg_span(),
    }])
}

fn str_expr(s: &str, style: StrStyle) -> Expr {
    Expr {
        kind: ExprKind::Lit(LitKind::Str(s.to_string(), style)),
        span: arg_span(),
    }
}

fn produced_text(r: &Expansion) -> String {
    match r {
        Expansion::Produced(item) => match &item.kind {
            ItemKind::GlobalAsm(g) => g.text.clone(),
        },
        _ => panic!("no item was produced"),
    }
}

#[test]
fn nop_gives_one_item_and_no_diagnostic() {
    let mut cx = ExtCtxt::new(DEF_SITE);
    let tts = literal_tokens("\"nop\"");
    let r = expand_global_asm(&mut cx, call_span(), &tts, Ok(str_expr("nop", StrStyle::Cooked)));
    assert_eq!(produced_text(&r), "nop");
    assert!(cx.emitted.is_empty());
}

#[test]
fn no_tokens_gives_one_diagnostic_at_call_span() {
    let mut cx = ExtCtxt::new(DEF_SITE);
    let tts = TokenStream::new(Vec::new());
    let parser_error = Diagnostic::struct_span_err(call_span(), "expected expression");
    let r = expand_global_asm(&mut cx, call_span(), &tts, Err(parser_error));
    assert!(matches!(r, Expansion::NoItem));
    assert_eq!(cx.emitted.len(), 1);
    let d = &cx.emitted[0];
    assert_eq!(d.level, Level::Error);
    assert_eq!(d.message, "macro requires a string literal as an argument");
    assert_eq!(d.span, call_span());
    assert_eq!(d.labels.len(), 1);
    assert_eq!(d.labels[0].span, call_span());
    assert_eq!(d.labels[0].label, "string literal required");
}

#[test]
fn integer_gives_not_a_string_diagnostic_at_expression() {
    let mut cx = ExtCtxt::new(DEF_SITE);
    let tts = literal_tokens("123");
    let e = Expr { kind: ExprKind::Lit(LitKind::Int(123)), span: arg_span() };
    let r = expand_global_asm(&mut cx, call_span(), &tts, Ok(e));
    assert!(matches!(r, Expansion::NoItem));
    assert_eq!(cx.emitted.len(), 1);
    assert_eq!(cx.emitted[0].level, Level::Error);
    assert_eq!(cx.emitted[0].message, "inline assembly must be a string literal");
    assert_eq!(cx.emitted[0].span, arg_span());
    assert!(cx.emitted[0].labels.is_empty());
}

#[test]
fn parser_failure_is_handed_back_not_emitted() {
    let mut cx = ExtCtxt::new(DEF_SITE);
    let tts = TokenStream::new(vec![
        Token { kind: TokenKind::Literal("\"a\"".to_string()), span: Span::new(112, 115, 0) },
        Token { kind: TokenKind::CloseDelim(')'), span: Span::new(116, 117, 0) },
    ]);
    let parser_error =
        Diagnostic::struct_span_err(Span::new(116, 117, 0), "unexpected closing delimiter: `)`");
    let r = expand_global_asm(&mut cx, call_span(), &tts, Err(parser_error));
    match r {
        Expansion::Propagated(d) => {
            assert_eq!(d.message, "unexpected closing delimiter: `)`");
            assert_eq!(d.span, Span::new(116, 117, 0));
        }
        _ => panic!("the parser's failure was not handed back"),
    }
    assert!(cx.emitted.is_empty());
}

#[test]
fn identifier_gives_not_a_string_diagnostic() {
    let mut cx = ExtCtxt::new(DEF_SITE);
    let tts = TokenStream::new(vec![Token {
        kind: TokenKind::Ident("x".to_string()),
        span: arg_span(),
    }]);
    let e = Expr { kind: ExprKind::Path("x".to_string()), span: arg_span() };
    let r = expand_global_asm(&mut cx, call_span(), &tts, Ok(e));
    assert!(matches!(r, Expansion::NoItem));
    assert_eq!(cx.emitted.len(), 1);
    assert_eq!(cx.emitted[0].message, "inline assembly must be a string literal");
}

#[test]
fn other_literal_kinds_are_not_strings() {
    let kinds = vec![
        LitKind::ByteStr(vec![b'n', b'o', b'p']),
        LitKind::Byte(b'a'),
        LitKind::Char('a'),
        LitKind::Int(42),
        LitKind::Float("1.5".to_string()),
        LitKind::Bool(true),
    ];
    for k in kinds {
        let mut cx = ExtCtxt::new(DEF_SITE);
        let e = Expr { kind: ExprKind::Lit(k), span: arg_span() };
        let r = expand_global_asm(&mut cx, call_span(), &literal_tokens("x"), Ok(e));
        assert!(matches!(r, Expansion::NoItem));
        assert_eq!(cx.emitted.len(), 1);
        assert_eq!(cx.emitted[0].span, arg_span());
    }
}

#[test]
fn compound_expression_is_not_a_string() {
    let mut cx = ExtCtxt::new(DEF_SITE);
    let e = Expr { kind: ExprKind::Other, span: Span::new(112, 118, 0) };
    let r = expand_global_asm(&mut cx, call_span(), &literal_tokens("1"), Ok(e));
    assert!(matches!(r, Expansion::NoItem));
    assert_eq!(cx.emitted[0].span, Span::new(112, 118, 0));
}

#[test]
fn empty_string_gives_item_with_empty_text() {
    let mut cx = ExtCtxt::new(DEF_SITE);
    let r = expand_global_asm(
        &mut cx,
        call_span(),
        &literal_tokens("\"\""),
        Ok(str_expr("", StrStyle::Cooked)),
    );
    assert_eq!(produced_text(&r), "");
    assert!(cx.emitted.is_empty());
}

#[test]
fn raw_string_text_is_kept_verbatim() {
    let mut cx = ExtCtxt::new(DEF_SITE);
    let text = ".globl foo\nfoo: ret # \"quoted\"";
    let r = expand_global_asm(
        &mut cx,
        call_span(),
        &literal_tokens("r#\"...\"#"),
        Ok(str_expr(text, StrStyle::Raw(1))),
    );
    assert_eq!(produced_text(&r), text);
    assert!(cx.emitted.is_empty());
}

#[test]
fn produced_item_is_complete() {
    let mut cx = ExtCtxt::new(DEF_SITE);
    let r = expand_global_asm(
        &mut cx,
        call_span(),
        &literal_tokens("\"nop\""),
        Ok(str_expr("nop", StrStyle::Cooked)),
    );
    match r {
        Expansion::Produced(item) => {
            assert_eq!(item.ident.name, "");
            assert_eq!(item.ident.span, Span::new(0, 0, 0));
            assert!(item.attrs.is_empty());
            assert_eq!(item.id, DUMMY_NODE_ID);
            assert_eq!(item.vis.kind, VisibilityKind::Inherited);
            assert_eq!(item.vis.span, Span::new(100, 100, 0));
            assert_eq!(item.span, Span::new(100, 120, DEF_SITE));
            assert!(item.tokens.is_none());
        }
        _ => panic!("no item was produced"),
    }
}

#[test]
fn expanding_twice_gives_the_same_outcome() {
    let tts = literal_tokens("\"nop\"");
    let mut cx_a = ExtCtxt::new(DEF_SITE);
    let mut cx_b = ExtCtxt::new(DEF_SITE + 1);
    let a = expand_global_asm(&mut cx_a, call_span(), &tts, Ok(str_expr("nop", StrStyle::Cooked)));
    let b = expand_global_asm(&mut cx_b, call_span(), &tts, Ok(str_expr("nop", StrStyle::Cooked)));
    match (a, b) {
        (Expansion::Produced(x), Expansion::Produced(y)) => {
            assert_eq!(x.span.lo, y.span.lo);
            assert_eq!(x.span.hi, y.span.hi);
            assert_eq!(x.vis, y.vis);
            assert_eq!(x.id, y.id);
            assert_eq!(x.span.ctxt, DEF_SITE);
            assert_eq!(y.span.ctxt, DEF_SITE + 1);
        }
        _ => panic!("no item was produced"),
    }
    let mut cx = ExtCtxt::new(DEF_SITE);
    let empty = TokenStream::new(Vec::new());
    let e = Expr { kind: ExprKind::Other, span: arg_span() };
    let first = expand_global_asm(&mut cx, call_span(), &empty, Ok(e.clone()));
    let second = expand_global_asm(&mut cx, call_span(), &empty, Ok(e));
    assert!(matches!(first, Expansion::NoItem));
    assert!(matches!(second, Expansion::NoItem));
    assert_eq!(cx.emitted.len(), 2);
    assert_eq!(cx.emitted[0].message, cx.emitted[1].message);
    assert_eq!(cx.emitted[0].span, cx.emitted[1].span);
    assert_eq!(cx.emitted[0].labels[0].span, cx.emitted[1].labels[0].span);
}

#[test]
fn diagnostics_accumulate_in_order() {
    let mut cx = ExtCtxt::new(DEF_SITE);
    let e = Expr { kind: ExprKind::Lit(LitKind::Int(1)), span: arg_span() };
    expand_global_asm(&mut cx, call_span(), &literal_tokens("1"), Ok(e));
    expand_global_asm(&mut cx, call_span(), &TokenStream::new(Vec::new()), Ok(str_expr("", StrStyle::Cooked)));
    assert_eq!(cx.emitted.len(), 2);
    assert_eq!(cx.emitted[0].message, "inline assembly must be a string literal");
    assert_eq!(cx.emitted[1].message, "macro requires a string literal as an argument");
}

#[test]
fn expr_to_string_returns_text_and_style() {
    let mut cx = ExtCtxt::new(DEF_SITE);
    let r = expr_to_string(&mut cx, str_expr("mov", StrStyle::Raw(2)), "must be a string");
    assert_eq!(r, Some(("mov".to_string(), StrStyle::Raw(2))));
    assert!(cx.emitted.is_empty());
    let e = Expr { kind: ExprKind::Lit(LitKind::Char('c')), span: arg_span() };
    let r = expr_to_string(&mut cx, e, "must be a string");
    assert_eq!(r, None);
    assert_eq!(cx.emitted.len(), 1);
    assert_eq!(cx.emitted[0].message, "must be a string");
}

#[test]
fn build_item_tags_span_with_definition_site() {
    let cx = ExtCtxt::new(9);
    let item = build_item(&cx, Span::new(5, 8, 1), GlobalAsm { text: "ret".to_string() });
    assert_eq!(item.span, Span::new(5, 8, 9));
    assert_eq!(item.vis.span, Span::new(5, 5, 1));
    match &item.kind {
        ItemKind::GlobalAsm(g) => assert_eq!(g.text, "ret"),
    }
}
