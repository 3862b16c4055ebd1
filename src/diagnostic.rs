use vstd::prelude::*;
use crate::span::Span;

verus! {

/// How serious a diagnostic is.
#[derive(Clone, Copy, Debug, PartialEq, Eq, Structural)]
pub enum Level {
    Error,
    Warning,
    Note,
}

/// A message attached to one span of a diagnostic.
#[derive(Clone, Debug)]
pub struct SpanLabel {
    pub span: Span,
    pub label: String,
}

/// A diagnostic: a level, a message at a primary span, and labelled spans in
/// the order in which they were added.
#[derive(Clone, Debug)]
pub struct Diagnostic {
    pub level: Level,
    pub message: String,
    pub span: Span,
    pub labels: Vec<SpanLabel>,
}

/// What a diagnostic says, as mathematical values.
pub struct DiagnosticView {
    pub level: Level,
    pub message: Seq<char>,
    pub span: Span,
    pub labels: Seq<(Span, Seq<char>)>,
}

impl View for SpanLabel {
    type V = (Span, Seq<char>);

    open spec fn view(&self) -> (Span, Seq<char>) {
        (self.span, self.label@)
    }
}

impl View for Diagnostic {
    type V = DiagnosticView;

    open spec fn view(&self) -> DiagnosticView {
        DiagnosticView {
            level: self.level,
            message: self.message@,
            span: self.span,
            labels: self.labels@.map_values(|l: SpanLabel| l@),
        }
    }
}

/// An error at `sp` with message `msg` and no labels yet.
pub open spec fn error_at(sp: Span, msg: Seq<char>) -> DiagnosticView {
    DiagnosticView { level: Level::Error, message: msg, span: sp, labels: Seq::empty() }
}

impl DiagnosticView {
    /// This diagnostic with one more label at the end.
    pub open spec fn with_label(self, sp: Span, label: Seq<char>) -> DiagnosticView {
        DiagnosticView { labels: self.labels.push((sp, label)), ..self }
    }
}

impl Diagnostic {
    /// An error at `sp` with message `msg` and no labels.
    pub fn struct_span_err(sp: Span, msg: &str) -> (r: Diagnostic)
        ensures
            r@ == error_at(sp, msg@),
    {
        let r = Diagnostic {
            level: Level::Error,
            message: msg.to_owned(),
            span: sp,
            labels: Vec::new(),
        };
        assert(r@.labels =~= Seq::<(Span, Seq<char>)>::empty());
        r
    }

    /// This diagnostic with the label `label` at `sp` added after the others.
    pub fn span_label(self, sp: Span, label: &str) -> (r: Diagnostic)
        ensures
            r@ == self@.with_label(sp, label@),
    {
        let mut r = self;
        let l = SpanLabel { span: sp, label: label.to_owned() };
        r.labels.push(l);
        assert(r@.labels =~= self@.labels.push((sp, label@)));
        r
    }
}

} // verus!
