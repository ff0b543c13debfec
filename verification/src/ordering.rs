//! The order of literals.
//!
//! Nodes are ordered field by field, in the order in which the fields are
//! declared; kinds and keywords are ordered as they are listed. The order
//! is total, and two nodes are in no order exactly where they are equal.

use crate::compare::{
    code_point, compare_char, compare_text, compare_truth, lemma_code_point_injective,
    lemma_text_order_equal, lemma_text_order_reversed, lemma_text_order_transitive, lexicographic,
    order_of, reversed, text_order, truth_rank,
};
use crate::literal::{
    suffix_view, LitBool, LitBoolType, LitBoolView, LitChar, LitCharView, LitInt, LitIntType,
    LitIntView, LitString, LitStringView, Literal, LiteralView,
};
use crate::magnitude::compare_magnitude;
use crate::span::{lemma_span_order, lemma_span_order_transitive, Span, SpanView};
use std::cmp::Ordering;
use vstd::prelude::*;

verus! {

impl LitStringView {
    /// The order of string literals: by span, then by text.
    pub open spec fn order(self, other: LitStringView) -> Ordering {
        lexicographic(self.span.order(other.span), text_order(self.parsed, other.parsed))
    }
}

impl vstd::std_specs::cmp::PartialOrdSpecImpl for LitString {
    open spec fn obeys_partial_cmp_spec() -> bool {
        true
    }

    open spec fn partial_cmp_spec(&self, other: &LitString) -> Option<Ordering> {
        Some(self@.order(other@))
    }
}

impl PartialOrd for LitString {
    /// String literals are ordered by span, then by text.
    fn partial_cmp(&self, other: &LitString) -> (r: Option<Ordering>) {
        match self.span.compare(&other.span) {
            Ordering::Equal => Some(compare_text(self.parsed.as_str(), other.parsed.as_str())),
            decided => Some(decided),
        }
    }
}

impl LitCharView {
    /// The order of character literals: by span, then by code point.
    pub open spec fn order(self, other: LitCharView) -> Ordering {
        lexicographic(
            self.span.order(other.span),
            order_of(code_point(self.parsed), code_point(other.parsed)),
        )
    }
}

impl vstd::std_specs::cmp::PartialOrdSpecImpl for LitChar {
    open spec fn obeys_partial_cmp_spec() -> bool {
        true
    }

    open spec fn partial_cmp_spec(&self, other: &LitChar) -> Option<Ordering> {
        Some(self@.order(other@))
    }
}

impl PartialOrd for LitChar {
    /// Character literals are ordered by span, then by code point.
    fn partial_cmp(&self, other: &LitChar) -> (r: Option<Ordering>) {
        match self.span.compare(&other.span) {
            Ordering::Equal => Some(compare_char(self.parsed, other.parsed)),
            decided => Some(decided),
        }
    }
}

impl LitIntType {
    /// The place of the kind in the order of kinds: the unsigned ones by
    /// width, then the signed ones by width.
    pub open spec fn rank(self) -> nat {
        match self {
            LitIntType::U8 => 0,
            LitIntType::U16 => 1,
            LitIntType::U32 => 2,
            LitIntType::U64 => 3,
            LitIntType::U256 => 4,
            LitIntType::I8 => 5,
            LitIntType::I16 => 6,
            LitIntType::I32 => 7,
            LitIntType::I64 => 8,
        }
    }

    fn rank_of(&self) -> (r: u8)
        ensures
            r == self.rank(),
    {
        match self {
            LitIntType::U8 => 0,
            LitIntType::U16 => 1,
            LitIntType::U32 => 2,
            LitIntType::U64 => 3,
            LitIntType::U256 => 4,
            LitIntType::I8 => 5,
            LitIntType::I16 => 6,
            LitIntType::I32 => 7,
            LitIntType::I64 => 8,
        }
    }
}

impl vstd::std_specs::cmp::PartialOrdSpecImpl for LitIntType {
    open spec fn obeys_partial_cmp_spec() -> bool {
        true
    }

    open spec fn partial_cmp_spec(&self, other: &LitIntType) -> Option<Ordering> {
        Some(order_of(self.rank(), other.rank()))
    }
}

impl PartialOrd for LitIntType {
    /// Kinds are ordered as they are listed.
    fn partial_cmp(&self, other: &LitIntType) -> (r: Option<Ordering>) {
        Some(self.rank_of().cmp(&other.rank_of()))
    }
}

/// The order of optional suffixes: none before any, then by kind, then by
/// span.
pub open spec fn suffix_order(
    a: Option<(LitIntType, SpanView)>,
    b: Option<(LitIntType, SpanView)>,
) -> Ordering {
    match (a, b) {
        (None, None) => Ordering::Equal,
        (None, Some(_)) => Ordering::Less,
        (Some(_), None) => Ordering::Greater,
        (Some((ta, sa)), Some((tb, sb))) => lexicographic(
            order_of(ta.rank(), tb.rank()),
            sa.order(sb),
        ),
    }
}

fn compare_suffix(a: &Option<(LitIntType, Span)>, b: &Option<(LitIntType, Span)>) -> (r: Ordering)
    ensures
        r == suffix_order(suffix_view(*a), suffix_view(*b)),
{
    match (a, b) {
        (None, None) => Ordering::Equal,
        (None, Some(_)) => Ordering::Less,
        (Some(_), None) => Ordering::Greater,
        (Some((ta, sa)), Some((tb, sb))) => match ta.rank_of().cmp(&tb.rank_of()) {
            Ordering::Equal => sa.compare(sb),
            decided => decided,
        },
    }
}

impl LitIntView {
    /// The order of integer literals: by span, then by number, then by
    /// suffix, then by the flag, `false` first.
    pub open spec fn order(self, other: LitIntView) -> Ordering {
        lexicographic(
            self.span.order(other.span),
            lexicographic(
                order_of(self.parsed, other.parsed),
                lexicographic(
                    suffix_order(self.ty_opt, other.ty_opt),
                    order_of(
                        truth_rank(self.is_generated_b256),
                        truth_rank(other.is_generated_b256),
                    ),
                ),
            ),
        )
    }
}

impl vstd::std_specs::cmp::PartialOrdSpecImpl for LitInt {
    open spec fn obeys_partial_cmp_spec() -> bool {
        true
    }

    open spec fn partial_cmp_spec(&self, other: &LitInt) -> Option<Ordering> {
        Some(self@.order(other@))
    }
}

impl PartialOrd for LitInt {
    /// Integer literals are ordered by span, then by number, then by
    /// suffix, then by the flag.
    fn partial_cmp(&self, other: &LitInt) -> (r: Option<Ordering>) {
        match self.span.compare(&other.span) {
            Ordering::Equal => match compare_magnitude(&self.parsed, &other.parsed) {
                Ordering::Equal => match compare_suffix(&self.ty_opt, &other.ty_opt) {
                    Ordering::Equal => Some(
                        compare_truth(self.is_generated_b256, other.is_generated_b256),
                    ),
                    decided => Some(decided),
                },
                decided => Some(decided),
            },
            decided => Some(decided),
        }
    }
}

impl LitBoolType {
    /// The place of the keyword in the order of keywords: `True` first.
    pub open spec fn rank(self) -> nat {
        match self {
            LitBoolType::True => 0,
            LitBoolType::False => 1,
        }
    }

    fn rank_of(&self) -> (r: u8)
        ensures
            r == self.rank(),
    {
        match self {
            LitBoolType::True => 0,
            LitBoolType::False => 1,
        }
    }
}

impl vstd::std_specs::cmp::PartialOrdSpecImpl for LitBoolType {
    open spec fn obeys_partial_cmp_spec() -> bool {
        true
    }

    open spec fn partial_cmp_spec(&self, other: &LitBoolType) -> Option<Ordering> {
        Some(order_of(self.rank(), other.rank()))
    }
}

impl PartialOrd for LitBoolType {
    /// Keywords are ordered as they are listed: `True` comes before `False`.
    fn partial_cmp(&self, other: &LitBoolType) -> (r: Option<Ordering>) {
        Some(self.rank_of().cmp(&other.rank_of()))
    }
}

impl LitBoolView {
    /// The order of boolean literals: by span, then by keyword.
    pub open spec fn order(self, other: LitBoolView) -> Ordering {
        lexicographic(self.span.order(other.span), order_of(self.kind.rank(), other.kind.rank()))
    }
}

impl vstd::std_specs::cmp::PartialOrdSpecImpl for LitBool {
    open spec fn obeys_partial_cmp_spec() -> bool {
        true
    }

    open spec fn partial_cmp_spec(&self, other: &LitBool) -> Option<Ordering> {
        Some(self@.order(other@))
    }
}

impl PartialOrd for LitBool {
    /// Boolean literals are ordered by span, then by keyword.
    fn partial_cmp(&self, other: &LitBool) -> (r: Option<Ordering>) {
        match self.span.compare(&other.span) {
            Ordering::Equal => self.kind.partial_cmp(&other.kind),
            decided => Some(decided),
        }
    }
}

impl LiteralView {
    /// The place of the kind in the order of kinds.
    pub open spec fn rank(self) -> nat {
        match self {
            LiteralView::String(_) => 0,
            LiteralView::Char(_) => 1,
            LiteralView::Int(_) => 2,
            LiteralView::Bool(_) => 3,
        }
    }

    /// The order of literals: by kind, and within one kind by the order of
    /// that kind.
    pub open spec fn order(self, other: LiteralView) -> Ordering {
        match (self, other) {
            (LiteralView::String(a), LiteralView::String(b)) => a.order(b),
            (LiteralView::Char(a), LiteralView::Char(b)) => a.order(b),
            (LiteralView::Int(a), LiteralView::Int(b)) => a.order(b),
            (LiteralView::Bool(a), LiteralView::Bool(b)) => a.order(b),
            _ => order_of(self.rank(), other.rank()),
        }
    }
}

impl Literal {
    fn rank_of(&self) -> (r: u8)
        ensures
            r == self@.rank(),
    {
        match self {
            Literal::String(_) => 0,
            Literal::Char(_) => 1,
            Literal::Int(_) => 2,
            Literal::Bool(_) => 3,
        }
    }
}

impl vstd::std_specs::cmp::PartialOrdSpecImpl for Literal {
    open spec fn obeys_partial_cmp_spec() -> bool {
        true
    }

    open spec fn partial_cmp_spec(&self, other: &Literal) -> Option<Ordering> {
        Some(self@.order(other@))
    }
}

impl PartialOrd for Literal {
    /// Literals are ordered by kind: strings first, then characters,
    /// integers and booleans; and within one kind by the order of that kind.
    fn partial_cmp(&self, other: &Literal) -> (r: Option<Ordering>) {
        match (self, other) {
            (Literal::String(a), Literal::String(b)) => a.partial_cmp(b),
            (Literal::Char(a), Literal::Char(b)) => a.partial_cmp(b),
            (Literal::Int(a), Literal::Int(b)) => a.partial_cmp(b),
            (Literal::Bool(a), Literal::Bool(b)) => a.partial_cmp(b),
            _ => Some(self.rank_of().cmp(&other.rank_of())),
        }
    }
}

/// Two kinds of integer have the same place in their order only if they
/// are the same kind.
pub proof fn lemma_int_kind_rank_injective(a: LitIntType, b: LitIntType)
    ensures
        a.rank() == b.rank() <==> a == b,
{
}

/// Two keywords have the same place in their order only if they are the
/// same keyword.
pub proof fn lemma_keyword_rank_injective(a: LitBoolType, b: LitBoolType)
    ensures
        a.rank() == b.rank() <==> a == b,
{
}

/// Two optional suffixes are in no order exactly where they are the same;
/// seen from the other side their order is reversed; and the order is
/// transitive.
pub proof fn lemma_suffix_order(
    a: Option<(LitIntType, SpanView)>,
    b: Option<(LitIntType, SpanView)>,
    c: Option<(LitIntType, SpanView)>,
)
    ensures
        suffix_order(a, b) == Ordering::Equal <==> a == b,
        suffix_order(b, a) == reversed(suffix_order(a, b)),
        suffix_order(a, b) == Ordering::Less && suffix_order(b, c) == Ordering::Less
            ==> suffix_order(a, c) == Ordering::Less,
{
    match (a, b, c) {
        (Some((ta, sa)), Some((tb, sb)), Some((tc, sc))) => {
            lemma_int_kind_rank_injective(ta, tb);
            lemma_int_kind_rank_injective(tb, tc);
            lemma_span_order(sa, sb);
            lemma_span_order(sb, sc);
            if sa.order(sb) == Ordering::Less && sb.order(sc) == Ordering::Less {
                lemma_span_order_transitive(sa, sb, sc);
            }
        },
        (Some((ta, sa)), Some((tb, sb)), None) => {
            lemma_int_kind_rank_injective(ta, tb);
            lemma_span_order(sa, sb);
        },
        _ => {},
    }
}

/// Two string literals are in no order exactly where they are equal; seen
/// from the other side their order is reversed; and the order is
/// transitive.
pub proof fn lemma_lit_string_order(a: LitStringView, b: LitStringView, c: LitStringView)
    ensures
        a.order(b) == Ordering::Equal <==> a == b,
        b.order(a) == reversed(a.order(b)),
        a.order(b) == Ordering::Less && b.order(c) == Ordering::Less ==> a.order(c)
            == Ordering::Less,
{
    lemma_span_order(a.span, b.span);
    lemma_span_order(b.span, c.span);
    lemma_text_order_equal(a.parsed, b.parsed);
    lemma_text_order_equal(b.parsed, c.parsed);
    lemma_text_order_reversed(a.parsed, b.parsed);
    if a.span.order(b.span) == Ordering::Less && b.span.order(c.span) == Ordering::Less {
        lemma_span_order_transitive(a.span, b.span, c.span);
    }
    if text_order(a.parsed, b.parsed) == Ordering::Less && text_order(b.parsed, c.parsed)
        == Ordering::Less {
        lemma_text_order_transitive(a.parsed, b.parsed, c.parsed);
    }
}

/// Two character literals are in no order exactly where they are equal;
/// seen from the other side their order is reversed; and the order is
/// transitive.
pub proof fn lemma_lit_char_order(a: LitCharView, b: LitCharView, c: LitCharView)
    ensures
        a.order(b) == Ordering::Equal <==> a == b,
        b.order(a) == reversed(a.order(b)),
        a.order(b) == Ordering::Less && b.order(c) == Ordering::Less ==> a.order(c)
            == Ordering::Less,
{
    lemma_span_order(a.span, b.span);
    lemma_span_order(b.span, c.span);
    lemma_code_point_injective(a.parsed, b.parsed);
    lemma_code_point_injective(b.parsed, c.parsed);
    if a.span.order(b.span) == Ordering::Less && b.span.order(c.span) == Ordering::Less {
        lemma_span_order_transitive(a.span, b.span, c.span);
    }
}

/// Two integer literals are in no order exactly where they are equal; seen
/// from the other side their order is reversed; and the order is
/// transitive.
pub proof fn lemma_lit_int_order(a: LitIntView, b: LitIntView, c: LitIntView)
    ensures
        a.order(b) == Ordering::Equal <==> a == b,
        b.order(a) == reversed(a.order(b)),
        a.order(b) == Ordering::Less && b.order(c) == Ordering::Less ==> a.order(c)
            == Ordering::Less,
{
    lemma_span_order(a.span, b.span);
    lemma_span_order(b.span, c.span);
    lemma_suffix_order(a.ty_opt, b.ty_opt, c.ty_opt);
    lemma_suffix_order(b.ty_opt, c.ty_opt, a.ty_opt);
    if a.span.order(b.span) == Ordering::Less && b.span.order(c.span) == Ordering::Less {
        lemma_span_order_transitive(a.span, b.span, c.span);
    }
}

/// Two boolean literals are in no order exactly where they are equal; seen
/// from the other side their order is reversed; and the order is
/// transitive.
pub proof fn lemma_lit_bool_order(a: LitBoolView, b: LitBoolView, c: LitBoolView)
    ensures
        a.order(b) == Ordering::Equal <==> a == b,
        b.order(a) == reversed(a.order(b)),
        a.order(b) == Ordering::Less && b.order(c) == Ordering::Less ==> a.order(c)
            == Ordering::Less,
{
    lemma_span_order(a.span, b.span);
    lemma_span_order(b.span, c.span);
    lemma_keyword_rank_injective(a.kind, b.kind);
    lemma_keyword_rank_injective(b.kind, c.kind);
    if a.span.order(b.span) == Ordering::Less && b.span.order(c.span) == Ordering::Less {
        lemma_span_order_transitive(a.span, b.span, c.span);
    }
}

/// Two literals are in no order exactly where they are equal; seen from the
/// other side their order is reversed; and the order is transitive.
pub proof fn lemma_literal_order(a: LiteralView, b: LiteralView, c: LiteralView)
    ensures
        a.order(b) == Ordering::Equal <==> a == b,
        b.order(a) == reversed(a.order(b)),
        a.order(b) == Ordering::Less && b.order(c) == Ordering::Less ==> a.order(c)
            == Ordering::Less,
{
    // Where the first two are of one kind, the law of that kind settles
    // them; the third matters only where it is of that kind too.
    match (a, b, c) {
        (LiteralView::String(x), LiteralView::String(y), LiteralView::String(z)) => {
            lemma_lit_string_order(x, y, z);
        },
        (LiteralView::Char(x), LiteralView::Char(y), LiteralView::Char(z)) => {
            lemma_lit_char_order(x, y, z);
        },
        (LiteralView::Int(x), LiteralView::Int(y), LiteralView::Int(z)) => {
            lemma_lit_int_order(x, y, z);
        },
        (LiteralView::Bool(x), LiteralView::Bool(y), LiteralView::Bool(z)) => {
            lemma_lit_bool_order(x, y, z);
        },
        (LiteralView::String(x), LiteralView::String(y), _) => {
            lemma_lit_string_order(x, y, x);
        },
        (LiteralView::Char(x), LiteralView::Char(y), _) => {
            lemma_lit_char_order(x, y, x);
        },
        (LiteralView::Int(x), LiteralView::Int(y), _) => {
            lemma_lit_int_order(x, y, x);
        },
        (LiteralView::Bool(x), LiteralView::Bool(y), _) => {
            lemma_lit_bool_order(x, y, x);
        },
        _ => {},
    }
}

} // verus!
