use num_bigint::BigUint;
use std::collections::hash_map::DefaultHasher;
use std::hash::{Hash, Hasher};
use sway_ast::{
    LitBool, LitBoolType, LitChar, LitInt, LitIntType, LitString, Literal, Span, Spanned,
};

fn at(start: usize, end: usize) -> Span {
    Span::new(0, start, end).unwrap()
}

fn lit_int(span: Span, value: u64, ty_opt: Option<(LitIntType, Span)>) -> LitInt {
    LitInt { span, parsed: BigUint::from(value), ty_opt, is_generated_b256: false }
}

fn hash_of<T: Hash>(value: &T) -> u64 {
    let mut hasher = DefaultHasher::new();
    value.hash(&mut hasher);
    hasher.finish()
}

// Source text `0x2Au8`: digits at 0..4, suffix at 4..6.
#[test]
fn int_with_suffix_spans_digits_and_suffix() {
    let digits = at(0, 4);
    let suffix = at(4, 6);
    let lit = lit_int(digits, 42, Some((LitIntType::U8, suffix)));
    assert_eq!(lit.span(), Span::join(digits, &suffix));
    assert_eq!(lit.span(), at(0, 6));
}

// Source text `100`.
#[test]
fn int_without_suffix_spans_its_digits() {
    let digits = at(0, 3);
    let lit = lit_int(digits, 100, None);
    assert_eq!(lit.span(), digits);
}

#[test]
fn bool_literal_spans_its_keyword() {
    let s = at(10, 14);
    let lit = Literal::Bool(LitBool { span: s, kind: LitBoolType::True });
    assert_eq!(lit.span(), s);
    assert_eq!(bool::from(LitBoolType::True), true);
}

#[test]
fn bool_conversion_tells_the_keywords_apart() {
    assert!(bool::from(LitBoolType::True));
    assert!(!bool::from(LitBoolType::False));
    let through_into: bool = LitBoolType::False.into();
    assert!(!through_into);
    assert_ne!(bool::from(LitBoolType::True), bool::from(LitBoolType::False));
}

#[test]
fn string_char_and_bool_report_the_stored_span() {
    let s = at(3, 12);
    // Written as "a\tb", read as three characters.
    let string = LitString { span: s, parsed: String::from("a\tb") };
    let ch = LitChar { span: s, parsed: 'x' };
    let boolean = LitBool { span: s, kind: LitBoolType::False };
    assert_eq!(string.span(), s);
    assert_eq!(ch.span(), s);
    assert_eq!(boolean.span(), s);
}

#[test]
fn literal_reports_the_span_of_what_it_holds() {
    let s = at(1, 5);
    let suffix = at(5, 8);
    let string = Literal::String(LitString { span: s, parsed: String::from("abc") });
    let ch = Literal::Char(LitChar { span: s, parsed: '\n' });
    let plain = Literal::Int(lit_int(s, 7, None));
    let suffixed = Literal::Int(lit_int(s, 7, Some((LitIntType::U64, suffix))));
    let boolean = Literal::Bool(LitBool { span: s, kind: LitBoolType::False });
    assert_eq!(string.span(), s);
    assert_eq!(ch.span(), s);
    assert_eq!(plain.span(), s);
    assert_eq!(suffixed.span(), at(1, 8));
    assert_eq!(boolean.span(), s);
}

#[test]
fn suffixed_span_strictly_contains_digits_and_suffix() {
    let digits = at(20, 23);
    let suffix = at(23, 27);
    let whole = lit_int(digits, 255, Some((LitIntType::U256, suffix))).span();
    assert!(whole.contains(&digits));
    assert!(whole.contains(&suffix));
    assert_ne!(whole, digits);
    assert_ne!(whole, suffix);
    assert_eq!((whole.start(), whole.end()), (20, 27));
}

#[test]
fn suffixed_span_covers_a_gap_between_digits_and_suffix() {
    // Written with a separator between the digits and the suffix.
    let whole = lit_int(at(0, 2), 12, Some((LitIntType::I32, at(3, 6)))).span();
    assert_eq!(whole, at(0, 6));
}

#[test]
fn suffix_inside_the_digits_adds_nothing() {
    let digits = at(0, 10);
    let whole = lit_int(digits, 1, Some((LitIntType::I8, at(2, 4)))).span();
    assert_eq!(whole, digits);
}

#[test]
fn int_equality_is_sensitive_to_the_span() {
    let a = lit_int(at(0, 2), 42, None);
    let b = lit_int(at(5, 7), 42, None);
    assert_ne!(a, b);
}

#[test]
fn int_equality_is_sensitive_to_the_magnitude() {
    let a = lit_int(at(0, 2), 42, None);
    let b = lit_int(at(0, 2), 43, None);
    assert_ne!(a, b);
    assert!(a != b);
    assert!(!(a == b));
}

#[test]
fn int_equality_is_sensitive_to_the_suffix() {
    let plain = lit_int(at(0, 2), 42, None);
    let u8_at_2 = lit_int(at(0, 2), 42, Some((LitIntType::U8, at(2, 4))));
    let u16_at_2 = lit_int(at(0, 2), 42, Some((LitIntType::U16, at(2, 4))));
    let u8_at_3 = lit_int(at(0, 2), 42, Some((LitIntType::U8, at(3, 5))));
    assert_ne!(plain, u8_at_2);
    assert_ne!(u8_at_2, plain);
    assert_ne!(u8_at_2, u16_at_2);
    assert_ne!(u8_at_2, u8_at_3);
}

#[test]
fn int_equality_is_sensitive_to_the_flag() {
    let a = lit_int(at(0, 2), 42, None);
    let b = LitInt { is_generated_b256: true, ..lit_int(at(0, 2), 42, None) };
    assert_ne!(a, b);
}

#[test]
fn int_equality_holds_for_the_same_fields() {
    let a = lit_int(at(0, 2), 42, Some((LitIntType::U8, at(2, 4))));
    let b = lit_int(at(0, 2), 42, Some((LitIntType::U8, at(2, 4))));
    assert_eq!(a, b);
    assert_eq!(b, a);
    assert_eq!(a, a);
    assert_eq!(hash_of(&a), hash_of(&b));
}

#[test]
fn int_equality_compares_numbers_not_how_they_were_built() {
    let by_digits = LitInt {
        span: at(0, 20),
        parsed: BigUint::new(vec![0, 1, 0, 0]),
        ty_opt: None,
        is_generated_b256: false,
    };
    let by_value = lit_int(at(0, 20), 1 << 32, None);
    assert_eq!(by_digits, by_value);
}

#[test]
fn int_holds_a_number_of_256_bits() {
    let max = BigUint::from_bytes_be(&[0xff; 32]);
    let a = LitInt { span: at(0, 66), parsed: max.clone(), ty_opt: None, is_generated_b256: false };
    let b = LitInt {
        span: at(0, 66),
        parsed: max - BigUint::from(1u8),
        ty_opt: None,
        is_generated_b256: false,
    };
    assert_eq!(a, a.clone());
    assert_ne!(a, b);
    assert_eq!(a.parsed.bits(), 256);
}

#[test]
fn equality_is_transitive() {
    let a = lit_int(at(1, 2), 9, None);
    let b = lit_int(at(1, 2), 9, None);
    let c = lit_int(at(1, 2), 9, None);
    assert!(a == b && b == c && a == c);
}

#[test]
fn string_equality_compares_span_and_text() {
    let a = LitString { span: at(0, 5), parsed: String::from("abc") };
    assert_eq!(a, LitString { span: at(0, 5), parsed: String::from("abc") });
    assert_ne!(a, LitString { span: at(0, 6), parsed: String::from("abc") });
    assert_ne!(a, LitString { span: at(0, 5), parsed: String::from("abd") });
    assert_ne!(a, LitString { span: at(0, 5), parsed: String::new() });
}

#[test]
fn char_equality_compares_span_and_character() {
    let a = LitChar { span: at(0, 3), parsed: 'a' };
    assert_eq!(a, LitChar { span: at(0, 3), parsed: 'a' });
    assert_ne!(a, LitChar { span: at(1, 4), parsed: 'a' });
    assert_ne!(a, LitChar { span: at(0, 3), parsed: 'b' });
}

#[test]
fn bool_equality_compares_span_and_keyword() {
    let a = LitBool { span: at(0, 4), kind: LitBoolType::True };
    assert_eq!(a, LitBool { span: at(0, 4), kind: LitBoolType::True });
    assert_ne!(a, LitBool { span: at(1, 5), kind: LitBoolType::True });
    assert_ne!(a, LitBool { span: at(0, 4), kind: LitBoolType::False });
}

#[test]
fn literals_of_different_kinds_are_unequal() {
    let s = at(0, 1);
    let all = [
        Literal::String(LitString { span: s, parsed: String::from("1") }),
        Literal::Char(LitChar { span: s, parsed: '1' }),
        Literal::Int(lit_int(s, 1, None)),
        Literal::Bool(LitBool { span: s, kind: LitBoolType::True }),
    ];
    for (i, a) in all.iter().enumerate() {
        for (j, b) in all.iter().enumerate() {
            assert_eq!(a == b, i == j);
        }
    }
}

#[test]
fn literals_of_one_kind_compare_what_they_hold() {
    let a = Literal::Int(lit_int(at(0, 1), 1, None));
    let b = Literal::Int(lit_int(at(0, 1), 2, None));
    assert_ne!(a, b);
    assert_eq!(a, Literal::Int(lit_int(at(0, 1), 1, None)));
    let t = Literal::Bool(LitBool { span: at(0, 4), kind: LitBoolType::True });
    let f = Literal::Bool(LitBool { span: at(0, 4), kind: LitBoolType::False });
    assert_ne!(t, f);
}

#[test]
fn clone_gives_an_equal_node() {
    let s = at(2, 9);
    let all = [
        Literal::String(LitString { span: s, parsed: String::from("text") }),
        Literal::Char(LitChar { span: s, parsed: 'c' }),
        Literal::Int(lit_int(s, u64::MAX, Some((LitIntType::U64, at(9, 12))))),
        Literal::Bool(LitBool { span: s, kind: LitBoolType::False }),
    ];
    for lit in all.iter() {
        let copy = lit.clone();
        assert_eq!(&copy, lit);
        assert_eq!(copy.span(), lit.span());
        assert_eq!(hash_of(&copy), hash_of(lit));
    }
}

#[test]
fn clone_of_an_int_keeps_every_field() {
    let lit = LitInt {
        span: at(0, 66),
        parsed: BigUint::from_bytes_be(&[0xab; 32]),
        ty_opt: None,
        is_generated_b256: true,
    };
    let copy = lit.clone();
    assert_eq!(copy.span, lit.span);
    assert_eq!(copy.parsed, lit.parsed);
    assert_eq!(copy.ty_opt, lit.ty_opt);
    assert_eq!(copy.is_generated_b256, lit.is_generated_b256);
}

#[test]
fn generated_b256_without_suffix_is_well_formed() {
    let lit = LitInt {
        span: at(0, 0),
        parsed: BigUint::from_bytes_be(&[0x11; 32]),
        ty_opt: None,
        is_generated_b256: true,
    };
    assert!(lit.is_well_formed());
    assert_eq!(lit.span(), at(0, 0));
}

#[test]
fn generated_b256_with_suffix_is_not_well_formed() {
    let lit = LitInt {
        span: at(0, 0),
        parsed: BigUint::from(0u8),
        ty_opt: Some((LitIntType::U256, at(0, 4))),
        is_generated_b256: true,
    };
    assert!(!lit.is_well_formed());
}

#[test]
fn parsed_literals_are_well_formed_with_or_without_suffix() {
    assert!(lit_int(at(0, 1), 1, None).is_well_formed());
    assert!(lit_int(at(0, 1), 1, Some((LitIntType::I64, at(1, 4)))).is_well_formed());
}

#[test]
fn every_int_kind_is_its_own() {
    let kinds = [
        LitIntType::U8,
        LitIntType::U16,
        LitIntType::U32,
        LitIntType::U64,
        LitIntType::U256,
        LitIntType::I8,
        LitIntType::I16,
        LitIntType::I32,
        LitIntType::I64,
    ];
    for (i, a) in kinds.iter().enumerate() {
        for (j, b) in kinds.iter().enumerate() {
            assert_eq!(a == b, i == j);
        }
    }
}

#[test]
fn derived_span_cuts_the_whole_token_out_of_the_source() {
    let source = "let x = 0x2Au8;";
    let lit = lit_int(at(8, 12), 42, Some((LitIntType::U8, at(12, 14))));
    let whole = lit.span();
    assert_eq!(&source[lit.span.start()..lit.span.end()], "0x2A");
    assert_eq!(&source[whole.start()..whole.end()], "0x2Au8");
}

#[test]
fn derived_span_of_a_string_cuts_the_quoted_text_not_the_value() {
    let source = r#"let s = "a\tb";"#;
    let lit = LitString { span: at(8, 14), parsed: String::from("a\tb") };
    let whole = lit.span();
    assert_eq!(&source[whole.start()..whole.end()], r#""a\tb""#);
    assert_ne!(&source[whole.start()..whole.end()], lit.parsed);
}
