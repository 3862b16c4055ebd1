use vstd::prelude::*;
use crate::span::{dummy_sp, dummy_sp_spec, Span};

verus! {

/// One lexical token of a macro's argument text.
#[derive(Clone, Debug, PartialEq, Eq)]
pub enum TokenKind {
    /// A literal, as written in the source (`"nop"`, `123`, `r#"x"#`).
    Literal(String),
    Ident(String),
    Punct(char),
    OpenDelim(char),
    CloseDelim(char),
}

#[derive(Clone, Debug, PartialEq, Eq)]
pub struct Token {
    pub kind: TokenKind,
    pub span: Span,
}

/// The tokens that a macro invocation received, in source order.
#[derive(Clone, Debug)]
pub struct TokenStream {
    pub tokens: Vec<Token>,
}

impl View for TokenStream {
    type V = Seq<Token>;

    open spec fn view(&self) -> Seq<Token> {
        self.tokens@
    }
}

impl TokenStream {
    pub fn new(tokens: Vec<Token>) -> (r: TokenStream)
        ensures
            r@ == tokens@,
    {
        TokenStream { tokens }
    }

    pub fn is_empty(&self) -> (r: bool)
        ensures
            r == (self@.len() == 0),
    {
        self.tokens.len() == 0
    }
}

/// How a string literal was quoted: `"..."`, or raw with `n` hashes.
#[derive(Clone, Copy, Debug, PartialEq, Eq, Structural)]
pub enum StrStyle {
    Cooked,
    Raw(u16),
}

/// The value of a literal expression, after escapes are resolved.
#[derive(Clone, Debug, PartialEq, Eq)]
pub enum LitKind {
    Str(String, StrStyle),
    ByteStr(Vec<u8>),
    Byte(u8),
    Char(char),
    Int(u128),
    /// A float literal, kept as its source text.
    Float(String),
    Bool(bool),
}

/// The form of a fully expanded expression, as far as expansion reads it.
#[derive(Clone, Debug, PartialEq, Eq)]
pub enum ExprKind {
    Lit(LitKind),
    /// A path such as `x` or `a::b`, written out.
    Path(String),
    /// Any other form of expression.
    Other,
}

#[derive(Clone, Debug, PartialEq, Eq)]
pub struct Expr {
    pub kind: ExprKind,
    pub span: Span,
}

/// The text and quoting of `e`, where `e` is a string literal.
pub open spec fn string_literal(e: Expr) -> Option<(Seq<char>, StrStyle)> {
    match e.kind {
        ExprKind::Lit(LitKind::Str(s, style)) => Some((s@, style)),
        _ => None,
    }
}

/// The identifier of an item.
#[derive(Clone, Debug)]
pub struct Ident {
    pub name: String,
    pub span: Span,
}

impl Ident {
    /// The identifier that names nothing: empty, at no place.
    pub fn invalid() -> (r: Ident)
        ensures
            r.name@ == Seq::<char>::empty(),
            r.span == dummy_sp_spec(),
    {
        let name = String::new();
        Ident { name, span: dummy_sp() }
    }
}

/// An attribute of an item, by its path.
#[derive(Clone, Debug)]
pub struct Attribute {
    pub path: String,
    pub span: Span,
}

/// The id of a node that has not been numbered yet.
pub const DUMMY_NODE_ID: u32 = 0xFFFF_FF00;

#[derive(Clone, Copy, Debug, PartialEq, Eq, Structural)]
pub enum VisibilityKind {
    Public,
    Inherited,
}

#[derive(Clone, Copy, Debug, PartialEq, Eq, Structural)]
pub struct Visibility {
    pub kind: VisibilityKind,
    pub span: Span,
}

/// Module-level assembly: text handed verbatim to the code generator.
#[derive(Clone, Debug)]
pub struct GlobalAsm {
    pub text: String,
}

#[derive(Clone, Debug)]
pub enum ItemKind {
    GlobalAsm(GlobalAsm),
}

/// An item of a module.
#[derive(Clone, Debug)]
pub struct Item {
    pub ident: Ident,
    pub attrs: Vec<Attribute>,
    pub id: u32,
    pub kind: ItemKind,
    pub vis: Visibility,
    pub span: Span,
    pub tokens: Option<TokenStream>,
}

/// What an item holds, as mathematical values.
pub struct ItemView {
    pub ident: (Seq<char>, Span),
    pub attrs: Seq<(Seq<char>, Span)>,
    pub id: u32,
    pub text: Seq<char>,
    pub vis: Visibility,
    pub span: Span,
    pub tokens: Option<Seq<Token>>,
}

impl View for Item {
    type V = ItemView;

    open spec fn view(&self) -> ItemView {
        ItemView {
            ident: (self.ident.name@, self.ident.span),
            attrs: self.attrs@.map_values(|a: Attribute| (a.path@, a.span)),
            id: self.id,
            text: match self.kind {
                ItemKind::GlobalAsm(g) => g.text@,
            },
            vis: self.vis,
            span: self.span,
            tokens: match self.tokens {
                Some(t) => Some(t@),
                None => None,
            },
        }
    }
}

} // verus!
