//! The four kinds of literal and where each one stands in the source.
//!
//! Every node keeps the value that the token stands for next to the span
//! that it was read from. Nothing here reads source text or holds a value
//! against it: whoever builds a node has done both.

use crate::magnitude::magnitude;
use crate::span::{Span, SpanView, Spanned};
use num_bigint::BigUint;
use vstd::prelude::*;
use vstd::std_specs::convert::FromSpec;

verus! {

/// What a string literal is: where it stands and the text that it denotes.
pub struct LitStringView {
    pub span: SpanView,
    pub parsed: Seq<char>,
}

/// A string literal. `span` is the quoted text as written; `parsed` is the
/// text that it denotes, with escapes already resolved.
#[derive(Debug, Eq, Hash)]
pub struct LitString {
    pub span: Span,
    pub parsed: String,
}

impl View for LitString {
    type V = LitStringView;

    open spec fn view(&self) -> LitStringView {
        LitStringView { span: self.span@, parsed: self.parsed@ }
    }
}

impl Clone for LitString {
    fn clone(&self) -> (r: LitString)
        ensures
            r@ == self@,
            r.span == self.span,
    {
        LitString { span: self.span, parsed: self.parsed.clone() }
    }
}

impl Spanned for LitString {
    open spec fn derived_span(&self) -> SpanView {
        self@.span
    }

    /// The stored span, as it is.
    fn span(&self) -> (r: Span)
        ensures
            r == self.span,
    {
        self.span
    }
}

/// What a character literal is: where it stands and the character that it
/// denotes.
pub struct LitCharView {
    pub span: SpanView,
    pub parsed: char,
}

/// A character literal.
#[derive(Debug, Eq, Hash)]
pub struct LitChar {
    pub span: Span,
    pub parsed: char,
}

impl View for LitChar {
    type V = LitCharView;

    open spec fn view(&self) -> LitCharView {
        LitCharView { span: self.span@, parsed: self.parsed }
    }
}

impl Clone for LitChar {
    fn clone(&self) -> (r: LitChar)
        ensures
            r == *self,
    {
        LitChar { span: self.span, parsed: self.parsed }
    }
}

impl Spanned for LitChar {
    open spec fn derived_span(&self) -> SpanView {
        self@.span
    }

    /// The stored span, as it is.
    fn span(&self) -> (r: Span)
        ensures
            r == self.span,
    {
        self.span
    }
}

/// The width and signedness that a suffix gives an integer literal. There
/// is no signed kind of 256 bits.
#[derive(Debug, Clone, Copy, PartialEq, Eq, Hash, Structural)]
pub enum LitIntType {
    U8,
    U16,
    U32,
    U64,
    U256,
    I8,
    I16,
    I32,
    I64,
}

/// What an integer literal is. `parsed` is the number that the digits
/// denote; a sign is no part of the literal.
pub struct LitIntView {
    pub span: SpanView,
    pub parsed: nat,
    pub ty_opt: Option<(LitIntType, SpanView)>,
    pub is_generated_b256: bool,
}

impl LitIntView {
    /// The span of the whole token: the digits alone where no suffix was
    /// written, else the digits joined with the suffix.
    pub open spec fn derived_span(self) -> SpanView {
        match self.ty_opt {
            Some((_, suffix)) => self.span.join(suffix),
            None => self.span,
        }
    }

    /// A node that was made up as a 256-bit hash literal has no suffix.
    /// Nothing enforces this: whoever makes such nodes owes it.
    pub open spec fn well_formed(self) -> bool {
        self.is_generated_b256 ==> self.ty_opt is None
    }
}

/// An integer literal.
///
/// `span` covers the digits only; a suffix, where one was written, has a
/// span of its own in `ty_opt`. `parsed` is never negative: a minus sign
/// belongs to the expression around the literal.
///
/// `is_generated_b256` marks a node that was not read from source but made
/// up to stand for a 256-bit hash literal. Its `span` may point at nothing
/// real, and whoever renders it must go by the flag, not by the span.
#[derive(Debug, Eq, Hash)]
pub struct LitInt {
    pub span: Span,
    pub parsed: BigUint,
    pub ty_opt: Option<(LitIntType, Span)>,
    pub is_generated_b256: bool,
}

/// The view of an optional suffix: its kind and the view of its span.
pub open spec fn suffix_view(ty_opt: Option<(LitIntType, Span)>) -> Option<(LitIntType, SpanView)> {
    match ty_opt {
        Some((ty, span)) => Some((ty, span@)),
        None => None,
    }
}

impl View for LitInt {
    type V = LitIntView;

    open spec fn view(&self) -> LitIntView {
        LitIntView {
            span: self.span@,
            parsed: magnitude(self.parsed),
            ty_opt: suffix_view(self.ty_opt),
            is_generated_b256: self.is_generated_b256,
        }
    }
}

impl Clone for LitInt {
    fn clone(&self) -> (r: LitInt)
        ensures
            r@ == self@,
            r.span == self.span,
            r.ty_opt == self.ty_opt,
    {
        LitInt {
            span: self.span,
            parsed: self.parsed.clone(),
            ty_opt: self.ty_opt,
            is_generated_b256: self.is_generated_b256,
        }
    }
}

impl LitInt {
    /// Whether the node keeps the rule that a made-up 256-bit literal has no
    /// suffix.
    pub fn is_well_formed(&self) -> (r: bool)
        ensures
            r == self@.well_formed(),
    {
        !self.is_generated_b256 || self.ty_opt.is_none()
    }
}

impl Spanned for LitInt {
    open spec fn derived_span(&self) -> SpanView {
        self@.derived_span()
    }

    /// The stored span where no suffix was written, else the join of the
    /// digits' span and the suffix's span.
    fn span(&self) -> (r: Span)
        ensures
            self.ty_opt is None ==> r == self.span,
    {
        match &self.ty_opt {
            Some((_lit_int_ty, span)) => Span::join(self.span, span),
            None => self.span,
        }
    }
}

/// The keyword that a boolean literal was written with.
#[derive(Debug, Clone, Copy, PartialEq, Eq, Hash, Structural)]
pub enum LitBoolType {
    True,
    False,
}

impl vstd::std_specs::convert::FromSpecImpl<LitBoolType> for bool {
    open spec fn obeys_from_spec() -> bool {
        true
    }

    open spec fn from_spec(item: LitBoolType) -> bool {
        item is True
    }
}

impl From<LitBoolType> for bool {
    /// `True` is `true` and `False` is `false`.
    fn from(item: LitBoolType) -> (r: bool) {
        match item {
            LitBoolType::True => true,
            LitBoolType::False => false,
        }
    }
}

/// What a boolean literal is: where it stands and which keyword it is.
pub struct LitBoolView {
    pub span: SpanView,
    pub kind: LitBoolType,
}

/// A boolean literal.
#[derive(Debug, Eq, Hash)]
pub struct LitBool {
    pub span: Span,
    pub kind: LitBoolType,
}

impl View for LitBool {
    type V = LitBoolView;

    open spec fn view(&self) -> LitBoolView {
        LitBoolView { span: self.span@, kind: self.kind }
    }
}

impl Clone for LitBool {
    fn clone(&self) -> (r: LitBool)
        ensures
            r == *self,
    {
        LitBool { span: self.span, kind: self.kind }
    }
}

impl Spanned for LitBool {
    open spec fn derived_span(&self) -> SpanView {
        self@.span
    }

    /// The stored span, as it is.
    fn span(&self) -> (r: Span)
        ensures
            r == self.span,
    {
        self.span
    }
}

/// What a literal is: one of the four kinds, with what that kind holds.
pub enum LiteralView {
    String(LitStringView),
    Char(LitCharView),
    Int(LitIntView),
    Bool(LitBoolView),
}

impl LiteralView {
    /// The span that the node keeps in its `span` field.
    pub open spec fn stored_span(self) -> SpanView {
        match self {
            LiteralView::String(lit) => lit.span,
            LiteralView::Char(lit) => lit.span,
            LiteralView::Int(lit) => lit.span,
            LiteralView::Bool(lit) => lit.span,
        }
    }

    /// The node is an integer literal with a suffix.
    pub open spec fn has_suffix(self) -> bool {
        self matches LiteralView::Int(lit) && lit.ty_opt is Some
    }

    /// The span of the whole token. Only an integer with a suffix has more
    /// to it than the stored span.
    pub open spec fn derived_span(self) -> SpanView {
        match self {
            LiteralView::String(lit) => lit.span,
            LiteralView::Char(lit) => lit.span,
            LiteralView::Int(lit) => lit.derived_span(),
            LiteralView::Bool(lit) => lit.span,
        }
    }
}

/// A literal of any of the four kinds.
#[derive(Debug, Eq, Hash)]
pub enum Literal {
    String(LitString),
    Char(LitChar),
    Int(LitInt),
    Bool(LitBool),
}

impl View for Literal {
    type V = LiteralView;

    open spec fn view(&self) -> LiteralView {
        match self {
            Literal::String(lit) => LiteralView::String(lit@),
            Literal::Char(lit) => LiteralView::Char(lit@),
            Literal::Int(lit) => LiteralView::Int(lit@),
            Literal::Bool(lit) => LiteralView::Bool(lit@),
        }
    }
}

impl Clone for Literal {
    fn clone(&self) -> (r: Literal)
        ensures
            r@ == self@,
            r.stored_span() == self.stored_span(),
    {
        match self {
            Literal::String(lit) => Literal::String(lit.clone()),
            Literal::Char(lit) => Literal::Char(lit.clone()),
            Literal::Int(lit) => Literal::Int(lit.clone()),
            Literal::Bool(lit) => Literal::Bool(lit.clone()),
        }
    }
}

impl Literal {
    /// The `span` field of the node inside.
    pub open spec fn stored_span(&self) -> Span {
        match self {
            Literal::String(lit) => lit.span,
            Literal::Char(lit) => lit.span,
            Literal::Int(lit) => lit.span,
            Literal::Bool(lit) => lit.span,
        }
    }
}

impl Spanned for Literal {
    open spec fn derived_span(&self) -> SpanView {
        self@.derived_span()
    }

    /// The span of the node inside, by the rule of its kind.
    fn span(&self) -> (r: Span)
        ensures
            !self@.has_suffix() ==> r == self.stored_span(),
    {
        match self {
            Literal::String(lit_string) => lit_string.span(),
            Literal::Char(lit_char) => lit_char.span(),
            Literal::Int(lit_int) => lit_int.span(),
            Literal::Bool(lit_bool) => lit_bool.span(),
        }
    }
}

/// Only an integer literal with a suffix reports another span than the one
/// it stores.
pub proof fn lemma_span_without_suffix(lit: LiteralView)
    requires
        !lit.has_suffix(),
    ensures
        lit.derived_span() == lit.stored_span(),
{
}

/// The span of an integer literal with a suffix is the join of the two. It
/// covers the digits and the suffix, and is larger than either exactly
/// where that one does not cover the other. Both must point into one
/// source.
pub proof fn lemma_span_with_suffix(lit: LitIntView, ty: LitIntType, suffix: SpanView)
    requires
        lit.ty_opt == Some((ty, suffix)),
        suffix.source == lit.span.source,
    ensures
        lit.derived_span() == lit.span.join(suffix),
        lit.derived_span().covers(lit.span),
        lit.derived_span().covers(suffix),
        lit.derived_span().strictly_covers(lit.span) <==> !lit.span.covers(suffix),
        lit.derived_span().strictly_covers(suffix) <==> !suffix.covers(lit.span),
{
}

/// The span of an integer literal with a suffix is the least span that
/// covers both: it lies inside every span that covers the digits and the
/// suffix.
pub proof fn lemma_span_with_suffix_is_least(
    lit: LitIntView,
    ty: LitIntType,
    suffix: SpanView,
    cover: SpanView,
)
    requires
        lit.ty_opt == Some((ty, suffix)),
        cover.covers(lit.span),
        cover.covers(suffix),
    ensures
        cover.covers(lit.derived_span()),
{
}

/// A made-up 256-bit literal that keeps its rule reports its stored span.
pub proof fn lemma_generated_span_is_stored(lit: LitIntView)
    requires
        lit.is_generated_b256,
        lit.well_formed(),
    ensures
        lit.ty_opt is None,
        lit.derived_span() == lit.span,
{
}

/// The conversion of a keyword to `bool` is defined on both keywords, gives
/// `true` for `True` and `false` for `False`, and never gives the same
/// answer for two keywords.
pub proof fn lemma_bool_conversion(a: LitBoolType, b: LitBoolType)
    ensures
        a is True || a is False,
        <bool as FromSpec<LitBoolType>>::from_spec(LitBoolType::True) == true,
        <bool as FromSpec<LitBoolType>>::from_spec(LitBoolType::False) == false,
        <bool as FromSpec<LitBoolType>>::from_spec(a) == <bool as FromSpec<LitBoolType>>::from_spec(
            b,
        ) ==> a == b,
{
}

} // verus!
