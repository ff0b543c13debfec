use sway_ast::{Span, Spanned};

fn span(source: u32, start: usize, end: usize) -> Span {
    Span::new(source, start, end).unwrap()
}

#[test]
fn new_keeps_source_and_bounds() {
    let s = span(7, 3, 9);
    assert_eq!(s.source_id(), 7);
    assert_eq!(s.start(), 3);
    assert_eq!(s.end(), 9);
    assert_eq!(s.len(), 6);
}

#[test]
fn new_accepts_an_empty_range() {
    let s = Span::new(0, 5, 5);
    assert!(s.is_some());
    assert_eq!(s.unwrap().len(), 0);
}

#[test]
fn new_refuses_bounds_out_of_order() {
    assert!(Span::new(0, 5, 4).is_none());
    assert!(Span::new(3, usize::MAX, 0).is_none());
}

#[test]
fn new_accepts_the_largest_bounds() {
    let s = span(u32::MAX, 0, usize::MAX);
    assert_eq!(s.source_id(), u32::MAX);
    assert_eq!(s.len(), usize::MAX);
}

#[test]
fn join_of_adjacent_spans() {
    let joined = Span::join(span(0, 0, 4), &span(0, 4, 6));
    assert_eq!(joined, span(0, 0, 6));
}

#[test]
fn join_of_distant_spans_covers_the_gap() {
    let joined = Span::join(span(1, 10, 12), &span(1, 20, 25));
    assert_eq!(joined, span(1, 10, 25));
}

#[test]
fn join_takes_either_order() {
    let a = span(2, 8, 9);
    let b = span(2, 1, 3);
    assert_eq!(Span::join(a, &b), span(2, 1, 9));
    assert_eq!(Span::join(b, &a), span(2, 1, 9));
}

#[test]
fn join_with_a_span_inside_changes_nothing() {
    let outer = span(0, 2, 10);
    let inner = span(0, 4, 6);
    assert_eq!(Span::join(outer, &inner), outer);
    assert_eq!(Span::join(inner, &outer), outer);
    assert_eq!(Span::join(outer, &outer), outer);
}

#[test]
fn join_keeps_the_source_of_the_first() {
    let joined = Span::join(span(3, 5, 6), &span(4, 0, 9));
    assert_eq!(joined, span(3, 0, 9));
}

#[test]
fn join_covers_both_and_nothing_smaller_does() {
    let a = span(0, 3, 5);
    let b = span(0, 7, 8);
    let joined = Span::join(a, &b);
    assert!(joined.contains(&a));
    assert!(joined.contains(&b));
    assert!(!span(0, 4, 8).contains(&a));
    assert!(!span(0, 3, 7).contains(&b));
    let wider = span(0, 1, 20);
    assert!(wider.contains(&a) && wider.contains(&b));
    assert!(wider.contains(&joined));
}

#[test]
fn contains_needs_the_same_source() {
    assert!(span(0, 0, 10).contains(&span(0, 2, 3)));
    assert!(!span(0, 0, 10).contains(&span(1, 2, 3)));
}

#[test]
fn contains_itself_and_not_what_sticks_out() {
    let s = span(0, 4, 8);
    assert!(s.contains(&s));
    assert!(!s.contains(&span(0, 3, 8)));
    assert!(!s.contains(&span(0, 4, 9)));
    assert!(s.contains(&span(0, 6, 6)));
}

#[test]
fn spans_are_equal_by_all_three_parts() {
    assert_eq!(span(0, 1, 2), span(0, 1, 2));
    assert_ne!(span(0, 1, 2), span(1, 1, 2));
    assert_ne!(span(0, 1, 2), span(0, 0, 2));
    assert_ne!(span(0, 1, 2), span(0, 1, 3));
}

#[test]
fn a_span_is_its_own_span() {
    let s = span(5, 1, 2);
    assert_eq!(s.span(), s);
}
