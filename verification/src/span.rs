use vstd::prelude::*;

verus! {

/// A range of byte offsets in the source text.
#[derive(Clone, Copy, Debug, PartialEq, Eq, Structural)]
pub struct Span {
    pub start: u32,
    pub end: u32,
}

/// `a + b`, saturating at `u32::MAX`.
pub open spec fn saturating_add_u32(a: u32, b: u32) -> u32 {
    if a + b <= u32::MAX { (a + b) as u32 } else { u32::MAX }
}

/// Builds a span through `oxc_span::Span::new`.
/// Trusted: `Span::new(start, end)` stores `start` and `end` unchanged.
#[verifier::external_body]
pub(crate) fn span_new(start: u32, end: u32) -> (s: Span)
    ensures
        s == (Span { start, end }),
{
    let s = oxc_span::Span::new(start, end);
    Span { start: s.start, end: s.end }
}

/// Grows a span to the right through `oxc_span::Span::expand_right`.
/// Trusted: `expand_right(offset)` keeps `start` and sets `end` to
/// `end.saturating_add(offset)`.
#[verifier::external_body]
pub(crate) fn span_expand_right(span: Span, offset: u32) -> (s: Span)
    ensures
        s.start == span.start,
        s.end == saturating_add_u32(span.end, offset),
{
    let s = oxc_span::Span::new(span.start, span.end).expand_right(offset);
    Span { start: s.start, end: s.end }
}

} // verus!
