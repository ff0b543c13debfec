//! The pieces that the orderings of spans and literals are put together from.

use std::cmp::Ordering;
use vstd::prelude::*;

verus! {

/// How two numbers stand to each other.
pub open spec fn order_of(a: nat, b: nat) -> Ordering {
    if a < b {
        Ordering::Less
    } else if a == b {
        Ordering::Equal
    } else {
        Ordering::Greater
    }
}

/// The order by a first key, and by a second one where the first does not
/// decide.
pub open spec fn lexicographic(first: Ordering, second: Ordering) -> Ordering {
    match first {
        Ordering::Equal => second,
        _ => first,
    }
}

/// The same order, seen from the other side.
pub open spec fn reversed(order: Ordering) -> Ordering {
    match order {
        Ordering::Less => Ordering::Greater,
        Ordering::Equal => Ordering::Equal,
        Ordering::Greater => Ordering::Less,
    }
}

/// The place of a character in the code charts.
pub open spec fn code_point(c: char) -> nat {
    c as nat
}

/// `false` comes before `true`.
pub open spec fn truth_rank(b: bool) -> nat {
    if b {
        1
    } else {
        0
    }
}

/// The order of two texts: that of the first characters in which they
/// differ; a text that another one begins with comes before it.
pub open spec fn text_order(a: Seq<char>, b: Seq<char>) -> Ordering
    decreases a.len(),
{
    if a.len() == 0 && b.len() == 0 {
        Ordering::Equal
    } else if a.len() == 0 {
        Ordering::Less
    } else if b.len() == 0 {
        Ordering::Greater
    } else {
        lexicographic(
            order_of(code_point(a[0]), code_point(b[0])),
            text_order(a.drop_first(), b.drop_first()),
        )
    }
}

/// Orders two truth values, `false` first.
pub(crate) fn compare_truth(a: bool, b: bool) -> (r: Ordering)
    ensures
        r == order_of(truth_rank(a), truth_rank(b)),
{
    if a == b {
        Ordering::Equal
    } else if b {
        Ordering::Less
    } else {
        Ordering::Greater
    }
}

/// Orders two characters by code point.
pub(crate) fn compare_char(a: char, b: char) -> (r: Ordering)
    ensures
        r == order_of(code_point(a), code_point(b)),
{
    if a < b {
        Ordering::Less
    } else if a == b {
        Ordering::Equal
    } else {
        Ordering::Greater
    }
}

/// Calls `str`'s `cmp`. Believed, not proved: std orders strings
/// lexicographically by their bytes, which is the order of their characters
/// by code point.
#[verifier::external_body]
pub(crate) fn compare_text(a: &str, b: &str) -> (r: Ordering)
    ensures
        r == text_order(a@, b@),
{
    a.cmp(b)
}

/// Two characters have the same place in the code charts only if they are
/// the same character.
pub proof fn lemma_code_point_injective(c: char, d: char)
    ensures
        code_point(c) == code_point(d) <==> c == d,
{
    let u = c as u32;
    let v = d as u32;
    assert(u as char == c);
    assert(v as char == d);
}

/// Two texts are in no order exactly where they are the same text.
pub proof fn lemma_text_order_equal(a: Seq<char>, b: Seq<char>)
    ensures
        text_order(a, b) == Ordering::Equal <==> a == b,
    decreases a.len(),
{
    if a.len() > 0 && b.len() > 0 {
        lemma_text_order_equal(a.drop_first(), b.drop_first());
        if a == b {
            assert(a.drop_first() == b.drop_first());
        }
        if text_order(a, b) == Ordering::Equal {
            lemma_code_point_injective(a[0], b[0]);
            assert(a =~= seq![a[0]] + a.drop_first());
            assert(b =~= seq![b[0]] + b.drop_first());
        }
    } else if a.len() == 0 && b.len() == 0 {
        assert(a =~= b);
    }
}

/// Seen from the other side, the order of two texts is reversed.
pub proof fn lemma_text_order_reversed(a: Seq<char>, b: Seq<char>)
    ensures
        text_order(b, a) == reversed(text_order(a, b)),
    decreases a.len(),
{
    if a.len() > 0 && b.len() > 0 {
        lemma_text_order_reversed(a.drop_first(), b.drop_first());
    }
}

/// The order of texts is transitive.
pub proof fn lemma_text_order_transitive(a: Seq<char>, b: Seq<char>, c: Seq<char>)
    requires
        text_order(a, b) == Ordering::Less,
        text_order(b, c) == Ordering::Less,
    ensures
        text_order(a, c) == Ordering::Less,
    decreases a.len(),
{
    if a.len() > 0 && b.len() > 0 && c.len() > 0 {
        lemma_text_order_equal(a.drop_first(), b.drop_first());
        lemma_text_order_equal(b.drop_first(), c.drop_first());
        if code_point(a[0]) == code_point(b[0]) && code_point(b[0]) == code_point(c[0]) {
            lemma_text_order_transitive(a.drop_first(), b.drop_first(), c.drop_first());
        }
    }
}

} // verus!
