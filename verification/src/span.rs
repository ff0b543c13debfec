//! Source spans: a range of positions inside one source text.

use crate::compare::{lexicographic, order_of, reversed};
use std::cmp::Ordering;
use vstd::prelude::*;

verus! {

/// What a span is, mathematically: the source it points into and the
/// half-open range `start..end` of positions that it covers there.
pub struct SpanView {
    pub source: nat,
    pub start: nat,
    pub end: nat,
}

impl SpanView {
    /// The bounds are in order, so the span is a (possibly empty) range.
    pub open spec fn is_range(self) -> bool {
        self.start <= self.end
    }

    /// `self` reaches at least as far as `inner` on both sides, in the same source.
    pub open spec fn covers(self, inner: SpanView) -> bool {
        &&& self.source == inner.source
        &&& self.start <= inner.start
        &&& inner.end <= self.end
    }

    /// `self` covers `inner` and is not equal to it.
    pub open spec fn strictly_covers(self, inner: SpanView) -> bool {
        self.covers(inner) && self != inner
    }

    /// The order of spans: by source, then by start, then by end.
    pub open spec fn order(self, other: SpanView) -> Ordering {
        lexicographic(
            order_of(self.source, other.source),
            lexicographic(order_of(self.start, other.start), order_of(self.end, other.end)),
        )
    }

    /// The span from the smaller of the two starts to the larger of the two
    /// ends, in the source of `self`.
    pub open spec fn join(self, other: SpanView) -> SpanView {
        SpanView {
            source: self.source,
            start: if self.start <= other.start { self.start } else { other.start },
            end: if self.end >= other.end { self.end } else { other.end },
        }
    }
}

/// A reference to a range of one source text. It owns no text: it is three
/// numbers, copied freely.
#[derive(Clone, Copy, Debug, PartialEq, Eq, Ord, Hash, Structural)]
pub struct Span {
    source: u32,
    start: usize,
    end: usize,
}

impl View for Span {
    type V = SpanView;

    closed spec fn view(&self) -> SpanView {
        SpanView { source: self.source as nat, start: self.start as nat, end: self.end as nat }
    }
}

impl vstd::std_specs::cmp::PartialOrdSpecImpl for Span {
    open spec fn obeys_partial_cmp_spec() -> bool {
        true
    }

    open spec fn partial_cmp_spec(&self, other: &Span) -> Option<Ordering> {
        Some(self@.order(other@))
    }
}

impl PartialOrd for Span {
    /// Spans are ordered by source, then by start, then by end.
    fn partial_cmp(&self, other: &Span) -> (r: Option<Ordering>) {
        Some(self.compare(other))
    }
}

impl Span {
    #[verifier::type_invariant]
    spec fn bounds_in_order(self) -> bool {
        self.start <= self.end
    }

    /// The span `start..end` of the source `source`, or `None` where the
    /// bounds are out of order.
    pub fn new(source: u32, start: usize, end: usize) -> (r: Option<Span>)
        ensures
            r is Some <==> start <= end,
            r matches Some(s) ==> s@ == (SpanView {
                source: source as nat,
                start: start as nat,
                end: end as nat,
            }),
    {
        if start <= end {
            Some(Span { source, start, end })
        } else {
            None
        }
    }

    /// How the span stands to `other`: by source, then by start, then by end.
    pub fn compare(&self, other: &Span) -> (r: Ordering)
        ensures
            r == self@.order(other@),
    {
        match self.source.cmp(&other.source) {
            Ordering::Equal => match self.start.cmp(&other.start) {
                Ordering::Equal => self.end.cmp(&other.end),
                decided => decided,
            },
            decided => decided,
        }
    }

    /// The source that the span points into.
    pub fn source_id(&self) -> (r: u32)
        ensures
            r == self@.source,
    {
        self.source
    }

    /// The first position of the span.
    pub fn start(&self) -> (r: usize)
        ensures
            r == self@.start,
            self@.is_range(),
    {
        proof {
            use_type_invariant(self);
        }
        self.start
    }

    /// The position just past the span.
    pub fn end(&self) -> (r: usize)
        ensures
            r == self@.end,
            self@.is_range(),
    {
        proof {
            use_type_invariant(self);
        }
        self.end
    }

    /// The number of positions in the span.
    pub fn len(&self) -> (r: usize)
        ensures
            r == self@.end - self@.start,
    {
        proof {
            use_type_invariant(self);
        }
        self.end - self.start
    }

    /// Whether `other` lies inside `self`, both in the same source.
    pub fn contains(&self, other: &Span) -> (r: bool)
        ensures
            r == self@.covers(other@),
    {
        self.source == other.source && self.start <= other.start && other.end <= self.end
    }

    /// The span that reaches from the earlier start to the later end of the
    /// two. Where both point into one source this is the least span that
    /// covers them; the source is always that of `s1`.
    pub fn join(s1: Span, s2: &Span) -> (r: Span)
        ensures
            r@ == s1@.join(s2@),
    {
        proof {
            use_type_invariant(s1);
            use_type_invariant(s2);
        }
        Span {
            source: s1.source,
            start: if s1.start <= s2.start { s1.start } else { s2.start },
            end: if s1.end >= s2.end { s1.end } else { s2.end },
        }
    }
}

/// Anything that can say where in the source it stands.
pub trait Spanned {
    /// The span that `span` reports.
    spec fn derived_span(&self) -> SpanView;

    /// The span of source text that this node stands for.
    fn span(&self) -> (r: Span)
        ensures
            r@ == self.derived_span(),
    ;
}

impl Spanned for Span {
    open spec fn derived_span(&self) -> SpanView {
        self@
    }

    /// A span stands where it points.
    fn span(&self) -> (r: Span)
        ensures
            r == *self,
    {
        *self
    }
}

/// Two spans with the same view are the same span.
pub proof fn lemma_view_injective(a: Span, b: Span)
    ensures
        a@ == b@ <==> a == b,
{
}

/// Two spans are in no order exactly where they are the same span, and
/// seen from the other side their order is reversed.
pub proof fn lemma_span_order(a: SpanView, b: SpanView)
    ensures
        a.order(b) == Ordering::Equal <==> a == b,
        b.order(a) == reversed(a.order(b)),
{
}

/// The order of spans is transitive.
pub proof fn lemma_span_order_transitive(a: SpanView, b: SpanView, c: SpanView)
    requires
        a.order(b) == Ordering::Less,
        b.order(c) == Ordering::Less,
    ensures
        a.order(c) == Ordering::Less,
{
}

/// A join of two spans of one source covers each of them.
pub proof fn lemma_join_covers_both(a: SpanView, b: SpanView)
    requires
        a.source == b.source,
    ensures
        a.join(b).covers(a),
        a.join(b).covers(b),
{
}

/// A join is the least cover: whatever covers both spans covers their join.
pub proof fn lemma_join_is_least_cover(a: SpanView, b: SpanView, c: SpanView)
    requires
        c.covers(a),
        c.covers(b),
    ensures
        c.covers(a.join(b)),
{
}

/// The least cover is the join and nothing else: a span that covers both
/// and lies inside every other span that does is their join.
pub proof fn lemma_least_cover_is_join(a: SpanView, b: SpanView, m: SpanView)
    requires
        m.covers(a),
        m.covers(b),
        forall|c: SpanView| c.covers(a) && c.covers(b) ==> #[trigger] c.covers(m),
    ensures
        m == a.join(b),
{
    assert(a.join(b).covers(m));
}

/// A join is larger than one of its two spans exactly where that span does
/// not already cover the other.
pub proof fn lemma_join_strictly_covers(a: SpanView, b: SpanView)
    requires
        a.source == b.source,
    ensures
        a.join(b).strictly_covers(a) <==> !a.covers(b),
        a.join(b).strictly_covers(b) <==> !b.covers(a),
{
}

/// A join of ranges is a range.
pub proof fn lemma_join_is_range(a: SpanView, b: SpanView)
    requires
        a.is_range() || b.is_range(),
    ensures
        a.join(b).is_range(),
{
}

} // verus!
