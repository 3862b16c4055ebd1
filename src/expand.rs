use vstd::prelude::*;
use crate::ast::{
    string_literal, Attribute, Expr, ExprKind, GlobalAsm, Ident, Item, ItemKind,
    ItemView, LitKind, StrStyle, Token, TokenStream, Visibility, VisibilityKind, DUMMY_NODE_ID,
};
use crate::diagnostic::{error_at, Diagnostic, DiagnosticView};
use crate::span::{dummy_sp_spec, Span, SyntaxContext, ROOT_CTXT};

verus! {

/// What one expansion step may use of its host: the hygiene context of the
/// macro's definition site, and the diagnostics emitted so far.
pub struct ExtCtxt {
    pub def_site: SyntaxContext,
    pub emitted: Vec<Diagnostic>,
}

impl ExtCtxt {
    /// The diagnostics emitted so far, oldest first.
    pub open spec fn diagnostics(&self) -> Seq<DiagnosticView> {
        self.emitted@.map_values(|d: Diagnostic| d@)
    }

    /// A context for a macro defined in hygiene context `def_site`, with
    /// nothing emitted yet.
    pub fn new(def_site: SyntaxContext) -> (r: ExtCtxt)
        ensures
            r.def_site == def_site,
            r.diagnostics() == Seq::<DiagnosticView>::empty(),
    {
        let r = ExtCtxt { def_site, emitted: Vec::new() };
        assert(r.diagnostics() =~= Seq::<DiagnosticView>::empty());
        r
    }

    /// `sp`, moved into the macro's definition-site hygiene context.
    pub fn with_def_site_ctxt(&self, sp: Span) -> (r: Span)
        ensures
            r == sp.spec_with_ctxt(self.def_site),
    {
        sp.with_ctxt(self.def_site)
    }

    /// Delivers `d` to the diagnostic sink.
    pub fn emit(&mut self, d: Diagnostic)
        ensures
            final(self).def_site == old(self).def_site,
            final(self).diagnostics() == old(self).diagnostics().push(d@),
    {
        let ghost v = d@;
        self.emitted.push(d);
        assert(self.diagnostics() =~= old(self).diagnostics().push(v));
    }
}

/// The error for an invocation without any argument.
pub open spec fn empty_input_error(sp: Span) -> DiagnosticView {
    error_at(sp, "macro requires a string literal as an argument"@).with_label(
        sp,
        "string literal required"@,
    )
}

/// The error for an argument that is not a string literal.
pub open spec fn not_a_string_error(sp: Span) -> DiagnosticView {
    error_at(sp, "inline assembly must be a string literal"@)
}

/// The item that carries module-level assembly `text`, for an invocation at
/// `sp` of a macro defined in hygiene context `def_site`.
pub open spec fn directive_item(sp: Span, def_site: SyntaxContext, text: Seq<char>) -> ItemView {
    ItemView {
        ident: (Seq::empty(), dummy_sp_spec()),
        attrs: Seq::empty(),
        id: DUMMY_NODE_ID,
        text,
        vis: Visibility { kind: VisibilityKind::Inherited, span: sp.spec_shrink_to_lo() },
        span: sp.spec_with_ctxt(def_site),
        tokens: None,
    }
}

/// Extracts the text of `expr`, which the host has fully expanded, where it
/// is a string literal of any quoting. Any other expression gets an error
/// with message `err_msg` at its span, delivered to the sink, and no text.
pub fn expr_to_string(cx: &mut ExtCtxt, expr: Expr, err_msg: &str) -> (r: Option<(String, StrStyle)>)
    ensures
        final(cx).def_site == old(cx).def_site,
        match string_literal(expr) {
            Some((text, style)) => {
                &&& r matches Some((s, st)) && s@ == text && st == style
                &&& final(cx).diagnostics() == old(cx).diagnostics()
            },
            None => {
                &&& r is None
                &&& final(cx).diagnostics() == old(cx).diagnostics().push(
                    error_at(expr.span, err_msg@),
                )
            },
        },
{
    match expr.kind {
        ExprKind::Lit(LitKind::Str(s, style)) => Some((s, style)),
        _ => {
            let err = Diagnostic::struct_span_err(expr.span, err_msg);
            cx.emit(err);
            None
        },
    }
}

/// Wraps `g` into the item that carries it: unnamed, without attributes,
/// with inherited visibility at the start of `sp`, and spanning `sp` in the
/// macro's definition-site hygiene context.
pub fn build_item(cx: &ExtCtxt, sp: Span, g: GlobalAsm) -> (r: Item)
    ensures
        r@ == directive_item(sp, cx.def_site, g.text@),
{
    let attrs: Vec<Attribute> = Vec::new();
    let r = Item {
        ident: Ident::invalid(),
        attrs,
        id: DUMMY_NODE_ID,
        kind: ItemKind::GlobalAsm(g),
        vis: Visibility { kind: VisibilityKind::Inherited, span: sp.shrink_to_lo() },
        span: cx.with_def_site_ctxt(sp),
        tokens: None,
    };
    assert(r@.attrs =~= Seq::<(Seq<char>, Span)>::empty());
    assert(r@.ident.0 =~= Seq::<char>::empty());
    r
}

/// Why an invocation produced nothing, where the diagnostic is not yet
/// delivered.
enum ParseFailure {
    /// No argument was given; the diagnostic is raised here.
    EmptyInput(Diagnostic),
    /// The host's parser rejected the argument; the diagnostic is its own.
    Syntax(Diagnostic),
}

/// The outcome of expanding one invocation.
pub enum Expansion {
    /// One directive item, with no diagnostic.
    Produced(Item),
    /// No item; the one diagnostic that says why is already delivered.
    NoItem,
    /// No item; the host's parser rejected the argument, and its diagnostic
    /// is handed back for the caller to deliver.
    Propagated(Diagnostic),
}

pub enum ExpansionView {
    Produced(ItemView),
    NoItem,
    Propagated(DiagnosticView),
}

impl View for Expansion {
    type V = ExpansionView;

    open spec fn view(&self) -> ExpansionView {
        match self {
            Expansion::Produced(item) => ExpansionView::Produced(item@),
            Expansion::NoItem => ExpansionView::NoItem,
            Expansion::Propagated(d) => ExpansionView::Propagated(d@),
        }
    }
}

/// The outcome of expanding an invocation at `sp` with argument tokens `tts`,
/// of a macro defined in hygiene context `def_site`, where the host's parser
/// gave `parsed` for those tokens; and the diagnostics that expansion
/// delivers, in order.
pub open spec fn expansion(
    sp: Span,
    def_site: SyntaxContext,
    tts: Seq<Token>,
    parsed: Result<Expr, Diagnostic>,
) -> (ExpansionView, Seq<DiagnosticView>) {
    if tts.len() == 0 {
        (ExpansionView::NoItem, seq![empty_input_error(sp)])
    } else {
        match parsed {
            Err(d) => (ExpansionView::Propagated(d@), Seq::empty()),
            Ok(e) => match string_literal(e) {
                Some((text, _)) => (
                    ExpansionView::Produced(directive_item(sp, def_site, text)),
                    Seq::empty(),
                ),
                None => (ExpansionView::NoItem, seq![not_a_string_error(e.span)]),
            },
        }
    }
}

fn parse_global_asm(
    cx: &mut ExtCtxt,
    sp: Span,
    tts: &TokenStream,
    parsed: Result<Expr, Diagnostic>,
) -> (r: Result<Option<GlobalAsm>, ParseFailure>)
    ensures
        final(cx).def_site == old(cx).def_site,
        tts@.len() == 0 ==> {
            &&& r matches Err(ParseFailure::EmptyInput(d)) && d@ == empty_input_error(sp)
            &&& final(cx).diagnostics() == old(cx).diagnostics()
        },
        tts@.len() > 0 ==> match parsed {
            Err(d) => {
                &&& r matches Err(ParseFailure::Syntax(e)) && e@ == d@
                &&& final(cx).diagnostics() == old(cx).diagnostics()
            },
            Ok(e) => match string_literal(e) {
                Some((text, _)) => {
                    &&& r matches Ok(Some(g)) && g.text@ == text
                    &&& final(cx).diagnostics() == old(cx).diagnostics()
                },
                None => {
                    &&& r matches Ok(None)
                    &&& final(cx).diagnostics() == old(cx).diagnostics().push(
                        not_a_string_error(e.span),
                    )
                },
            },
        },
{
    if tts.is_empty() {
        let err = Diagnostic::struct_span_err(sp, "macro requires a string literal as an argument");
        let err = err.span_label(sp, "string literal required");
        return Err(ParseFailure::EmptyInput(err));
    }
    let expr = match parsed {
        Ok(e) => e,
        Err(d) => return Err(ParseFailure::Syntax(d)),
    };
    match expr_to_string(cx, expr, "inline assembly must be a string literal") {
        Some((text, _)) => Ok(Some(GlobalAsm { text })),
        None => Ok(None),
    }
}

/// Expands one module-level assembly invocation at `sp` whose argument
/// tokens are `tts`. `parsed` is what the host's expression parser gave for
/// `tts`, after eager expansion; it is not looked at when `tts` is empty.
pub fn expand_global_asm(
    cx: &mut ExtCtxt,
    sp: Span,
    tts: &TokenStream,
    parsed: Result<Expr, Diagnostic>,
) -> (r: Expansion)
    ensures
        final(cx).def_site == old(cx).def_site,
        r@ == expansion(sp, old(cx).def_site, tts@, parsed).0,
        final(cx).diagnostics() == old(cx).diagnostics() + expansion(
            sp,
            old(cx).def_site,
            tts@,
            parsed,
        ).1,
        tts@.len() == 0 ==> {
            &&& r is NoItem
            &&& final(cx).diagnostics() == old(cx).diagnostics().push(empty_input_error(sp))
        },
        tts@.len() > 0 ==> match parsed {
            Err(d) => {
                &&& r@ == ExpansionView::Propagated(d@)
                &&& final(cx).diagnostics() == old(cx).diagnostics()
            },
            Ok(e) => match string_literal(e) {
                Some((text, _)) => {
                    &&& r@ == ExpansionView::Produced(directive_item(sp, old(cx).def_site, text))
                    &&& final(cx).diagnostics() == old(cx).diagnostics()
                },
                None => {
                    &&& r is NoItem
                    &&& final(cx).diagnostics() == old(cx).diagnostics().push(
                        not_a_string_error(e.span),
                    )
                },
            },
        },
{
    match parse_global_asm(cx, sp, tts, parsed) {
        Ok(Some(g)) => {
            let item = build_item(cx, sp, g);
            Expansion::Produced(item)
        },
        Ok(None) => {
            Expansion::NoItem
        },
        Err(ParseFailure::EmptyInput(err)) => {
            cx.emit(err);
            Expansion::NoItem
        },
        Err(ParseFailure::Syntax(err)) => {
            Expansion::Propagated(err)
        },
    }
}

/// An outcome with the hygiene context of a produced item's span cleared.
pub open spec fn without_hygiene(e: ExpansionView) -> ExpansionView {
    match e {
        ExpansionView::Produced(item) => ExpansionView::Produced(
            ItemView { span: item.span.spec_with_ctxt(ROOT_CTXT), ..item },
        ),
        _ => e,
    }
}

/// Expanding the same invocation twice gives the same outcome and delivers
/// the same diagnostics. Where the two expansions are tagged with different
/// definition-site hygiene contexts, the items differ in nothing but the
/// hygiene context of their span. A produced item is always complete: it is
/// the directive item for its own text.
pub proof fn lemma_expansion_idempotent(
    sp: Span,
    def_a: SyntaxContext,
    def_b: SyntaxContext,
    tts: Seq<Token>,
    parsed: Result<Expr, Diagnostic>,
)
    ensures
        def_a == def_b ==> expansion(sp, def_a, tts, parsed) == expansion(sp, def_b, tts, parsed),
        expansion(sp, def_a, tts, parsed).1 == expansion(sp, def_b, tts, parsed).1,
        without_hygiene(expansion(sp, def_a, tts, parsed).0) == without_hygiene(
            expansion(sp, def_b, tts, parsed).0,
        ),
        expansion(sp, def_a, tts, parsed).0 matches ExpansionView::Produced(item) ==> item
            == directive_item(sp, def_a, item.text),
{
}

} // verus!
