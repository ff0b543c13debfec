//! Equality of literals.
//!
//! Two nodes are equal where all their fields are: the same value written
//! in another place, or with another suffix, is another node. Whoever wants
//! to compare values compares the `parsed` fields.

use crate::literal::{suffix_view, LitBool, LitChar, LitInt, LitIntType, LitString, Literal};
use crate::magnitude::{magnitude, same_magnitude};
use crate::span::{lemma_view_injective, Span};
use vstd::prelude::*;
use vstd::std_specs::cmp::PartialEqSpec;

verus! {

impl vstd::std_specs::cmp::PartialEqSpecImpl for LitString {
    open spec fn obeys_eq_spec() -> bool {
        true
    }

    open spec fn eq_spec(&self, other: &LitString) -> bool {
        self@ == other@
    }
}

impl PartialEq for LitString {
    /// Equal where span and text are equal.
    fn eq(&self, other: &LitString) -> (r: bool) {
        proof {
            lemma_view_injective(self.span, other.span);
        }
        self.span == other.span && self.parsed == other.parsed
    }
}

impl vstd::std_specs::cmp::PartialEqSpecImpl for LitChar {
    open spec fn obeys_eq_spec() -> bool {
        true
    }

    open spec fn eq_spec(&self, other: &LitChar) -> bool {
        self@ == other@
    }
}

impl PartialEq for LitChar {
    /// Equal where span and character are equal.
    fn eq(&self, other: &LitChar) -> (r: bool) {
        proof {
            lemma_view_injective(self.span, other.span);
        }
        self.span == other.span && self.parsed == other.parsed
    }
}

fn same_suffix(a: &Option<(LitIntType, Span)>, b: &Option<(LitIntType, Span)>) -> (r: bool)
    ensures
        r == (suffix_view(*a) == suffix_view(*b)),
{
    match (a, b) {
        (Some((ta, sa)), Some((tb, sb))) => {
            proof {
                lemma_view_injective(*sa, *sb);
            }
            *ta == *tb && *sa == *sb
        },
        (None, None) => true,
        _ => false,
    }
}

impl vstd::std_specs::cmp::PartialEqSpecImpl for LitInt {
    open spec fn obeys_eq_spec() -> bool {
        true
    }

    open spec fn eq_spec(&self, other: &LitInt) -> bool {
        self@ == other@
    }
}

impl PartialEq for LitInt {
    /// Equal where the span, the number, the suffix and the flag are all
    /// equal.
    fn eq(&self, other: &LitInt) -> (r: bool) {
        proof {
            lemma_view_injective(self.span, other.span);
        }
        self.span == other.span && same_magnitude(&self.parsed, &other.parsed) && same_suffix(
            &self.ty_opt,
            &other.ty_opt,
        ) && self.is_generated_b256 == other.is_generated_b256
    }
}

impl vstd::std_specs::cmp::PartialEqSpecImpl for LitBool {
    open spec fn obeys_eq_spec() -> bool {
        true
    }

    open spec fn eq_spec(&self, other: &LitBool) -> bool {
        self@ == other@
    }
}

impl PartialEq for LitBool {
    /// Equal where span and keyword are equal.
    fn eq(&self, other: &LitBool) -> (r: bool) {
        proof {
            lemma_view_injective(self.span, other.span);
        }
        self.span == other.span && self.kind == other.kind
    }
}

impl vstd::std_specs::cmp::PartialEqSpecImpl for Literal {
    open spec fn obeys_eq_spec() -> bool {
        true
    }

    open spec fn eq_spec(&self, other: &Literal) -> bool {
        self@ == other@
    }
}

impl PartialEq for Literal {
    /// Equal where both are of the same kind and equal as nodes of that kind.
    fn eq(&self, other: &Literal) -> (r: bool) {
        match (self, other) {
            (Literal::String(a), Literal::String(b)) => a == b,
            (Literal::Char(a), Literal::Char(b)) => a == b,
            (Literal::Int(a), Literal::Int(b)) => a == b,
            (Literal::Bool(a), Literal::Bool(b)) => a == b,
            _ => false,
        }
    }
}

/// Equality of string literals is reflexive, symmetric and transitive, and
/// holds exactly where span and text are equal.
pub proof fn lemma_lit_string_eq(a: LitString, b: LitString, c: LitString)
    ensures
        a.eq_spec(&a),
        a.eq_spec(&b) ==> b.eq_spec(&a),
        a.eq_spec(&b) && b.eq_spec(&c) ==> a.eq_spec(&c),
        a.eq_spec(&b) <==> a.span == b.span && a.parsed@ == b.parsed@,
{
    lemma_view_injective(a.span, b.span);
}

/// Equality of character literals is reflexive, symmetric and transitive,
/// and holds exactly where span and character are equal.
pub proof fn lemma_lit_char_eq(a: LitChar, b: LitChar, c: LitChar)
    ensures
        a.eq_spec(&a),
        a.eq_spec(&b) ==> b.eq_spec(&a),
        a.eq_spec(&b) && b.eq_spec(&c) ==> a.eq_spec(&c),
        a.eq_spec(&b) <==> a.span == b.span && a.parsed == b.parsed,
{
    lemma_view_injective(a.span, b.span);
}

/// Equality of integer literals is reflexive, symmetric and transitive, and
/// holds exactly where all four fields are equal: a change of the span, of
/// the number, of the suffix or of the flag alone makes another node.
pub proof fn lemma_lit_int_eq(a: LitInt, b: LitInt, c: LitInt)
    ensures
        a.eq_spec(&a),
        a.eq_spec(&b) ==> b.eq_spec(&a),
        a.eq_spec(&b) && b.eq_spec(&c) ==> a.eq_spec(&c),
        a.eq_spec(&b) <==> {
            &&& a.span == b.span
            &&& magnitude(a.parsed) == magnitude(b.parsed)
            &&& a.ty_opt == b.ty_opt
            &&& a.is_generated_b256 == b.is_generated_b256
        },
{
    lemma_view_injective(a.span, b.span);
    match (a.ty_opt, b.ty_opt) {
        (Some((_, s)), Some((_, t))) => lemma_view_injective(s, t),
        _ => {},
    }
}

/// Equality of boolean literals is reflexive, symmetric and transitive, and
/// holds exactly where span and keyword are equal.
pub proof fn lemma_lit_bool_eq(a: LitBool, b: LitBool, c: LitBool)
    ensures
        a.eq_spec(&a),
        a.eq_spec(&b) ==> b.eq_spec(&a),
        a.eq_spec(&b) && b.eq_spec(&c) ==> a.eq_spec(&c),
        a.eq_spec(&b) <==> a.span == b.span && a.kind == b.kind,
{
    lemma_view_injective(a.span, b.span);
}

/// Equality of literals is reflexive, symmetric and transitive, and holds
/// exactly where both are of one kind and equal as nodes of that kind.
pub proof fn lemma_literal_eq(a: Literal, b: Literal, c: Literal)
    ensures
        a.eq_spec(&a),
        a.eq_spec(&b) ==> b.eq_spec(&a),
        a.eq_spec(&b) && b.eq_spec(&c) ==> a.eq_spec(&c),
        a.eq_spec(&b) <==> match (a, b) {
            (Literal::String(x), Literal::String(y)) => x.eq_spec(&y),
            (Literal::Char(x), Literal::Char(y)) => x.eq_spec(&y),
            (Literal::Int(x), Literal::Int(y)) => x.eq_spec(&y),
            (Literal::Bool(x), Literal::Bool(y)) => x.eq_spec(&y),
            _ => false,
        },
{
}

} // verus!
