use vstd::prelude::*;

verus! {

/// A hygiene mark attached to a span.
pub type SyntaxContext = u32;

/// The root hygiene context, the one of code written by the user.
pub const ROOT_CTXT: SyntaxContext = 0;

/// A region of source text, as byte offsets, with its hygiene context.
#[derive(Clone, Copy, Debug, PartialEq, Eq, Structural)]
pub struct Span {
    pub lo: u32,
    pub hi: u32,
    pub ctxt: SyntaxContext,
}

impl Span {
    pub fn new(lo: u32, hi: u32, ctxt: SyntaxContext) -> (r: Span)
        ensures
            r == (Span { lo, hi, ctxt }),
    {
        Span { lo, hi, ctxt }
    }

    /// The empty span at this span's start.
    pub open spec fn spec_shrink_to_lo(self) -> Span {
        Span { lo: self.lo, hi: self.lo, ctxt: self.ctxt }
    }

    /// The empty span at this span's start.
    pub fn shrink_to_lo(self) -> (r: Span)
        ensures
            r == self.spec_shrink_to_lo(),
    {
        Span { lo: self.lo, hi: self.lo, ctxt: self.ctxt }
    }

    /// The same region, tagged with another hygiene context.
    pub open spec fn spec_with_ctxt(self, ctxt: SyntaxContext) -> Span {
        Span { lo: self.lo, hi: self.hi, ctxt }
    }

    /// The same region, tagged with another hygiene context.
    pub fn with_ctxt(self, ctxt: SyntaxContext) -> (r: Span)
        ensures
            r == self.spec_with_ctxt(ctxt),
    {
        Span { lo: self.lo, hi: self.hi, ctxt }
    }
}

/// The span that stands for no place in the source.
pub open spec fn dummy_sp_spec() -> Span {
    Span { lo: 0, hi: 0, ctxt: ROOT_CTXT }
}

/// The span that stands for no place in the source.
pub fn dummy_sp() -> (r: Span)
    ensures
        r == dummy_sp_spec(),
{
    Span { lo: 0, hi: 0, ctxt: ROOT_CTXT }
}

} // verus!
