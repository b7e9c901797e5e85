use cartconf::decimal::{i32_dec_string, udec_string};
use cartconf::tokens::Tokens;

fn vocabulary() -> Vec<(Tokens, &'static str)> {
    vec![
        (Tokens::Indent(5), "indent 5"),
        (Tokens::EndL, "endl"),
        (Tokens::EndBlock(3), "indent 3"),
        (Tokens::Identifier, "identifier"),
        (Tokens::Whitespace, "whitespace"),
        (Tokens::StringTok, "string"),
        (Tokens::Variants, "variants"),
        (Tokens::Only, "only"),
        (Tokens::Suffix, "suffix"),
        (Tokens::Join, "join"),
        (Tokens::No, "no"),
        (Tokens::Include, "include"),
        (Tokens::Del, "del"),
        (Tokens::ApplyPreDict, "apply_pre_dict"),
        (Tokens::UpdateFileMap, "update_file_map"),
        (Tokens::ApplySuffix, "apply_suffix"),
        (Tokens::Colon, ":"),
        (Tokens::Dot, "."),
        (Tokens::Dash, "-"),
        (Tokens::At, "@"),
        (Tokens::NotCond, "!"),
        (Tokens::Comma, ","),
        (Tokens::DotDot, ".."),
        (Tokens::LBracket, "["),
        (Tokens::RBracket, "]"),
        (Tokens::LParen, "("),
        (Tokens::RParen, ")"),
        (Tokens::RegexStart, "${"),
        (Tokens::RegexStop, "}"),
        (Tokens::Assign, "="),
        (Tokens::Append, "+="),
        (Tokens::Prepend, "<="),
        (Tokens::LazyAssign, "~="),
        (Tokens::RegexAssign, "?="),
        (Tokens::RegexAppend, "?+="),
        (Tokens::RegexPrepend, "?<="),
        (Tokens::Cond, ""),
    ]
}

#[test]
fn it_works() {
    let result: usize = cartconf::add(2, 2);
    assert_eq!(result, 4);
}

#[test]
fn sum_as_string_renders_decimal() {
    assert_eq!(cartconf::sum_as_string(3, 4), "7");
    assert_eq!(cartconf::sum_as_string(0, 0), "0");
    assert_eq!(cartconf::sum_as_string(25, 17), "42");
    assert_eq!(cartconf::sum_as_string(1000000, 234567), "1234567");
}

#[test]
fn equality_is_reflexive() {
    let tokens = vocabulary();
    for (t, _) in &tokens {
        assert!(t == t);
    }
}

#[test]
fn equality_is_symmetric() {
    let a = Tokens::Indent(42);
    let b = Tokens::Indent(42);
    assert!(a == b);
    assert!(b == a);
    let c = Tokens::Comma;
    let d = Tokens::Comma;
    assert!(c == d);
    assert!(d == c);
}

#[test]
fn equality_is_transitive() {
    let a = Tokens::EndBlock(7);
    let b = Tokens::EndBlock(7);
    let c = Tokens::EndBlock(7);
    assert!(a == b);
    assert!(b == c);
    assert!(a == c);
}

#[test]
fn equality_distinguishes_variants() {
    let tokens = vocabulary();
    for (i, (a, _)) in tokens.iter().enumerate() {
        for (j, (b, _)) in tokens.iter().enumerate() {
            if i == j {
                assert!(a == b);
            } else {
                assert!(a != b);
            }
        }
    }
}

#[test]
fn payload_sensitivity() {
    assert!(Tokens::Indent(42) != Tokens::Indent(2));
    assert!(Tokens::EndBlock(1) != Tokens::EndBlock(0));
    assert!(Tokens::Indent(3) == Tokens::Indent(3));
}

#[test]
fn rendering_is_deterministic() {
    let a = Tokens::Indent(42);
    let b = Tokens::Indent(42);
    assert_eq!(a.render(), a.render());
    assert_eq!(a.render(), b.render());
    assert_eq!(a.debug_render(), b.debug_render());
    assert_eq!(a.quoted(), b.quoted());
}

#[test]
fn render_indent_literal() {
    assert_eq!(Tokens::Indent(42).render(), "indent 42");
    assert_eq!(Tokens::Indent(0).render(), "indent 0");
    assert_eq!(Tokens::Indent(-7).render(), "indent -7");
}

#[test]
fn debug_render_reveals_tag_and_payload() {
    let t = Tokens::Indent(42);
    let debug = t.debug_render();
    assert_eq!(debug, "Indent(42)");
    assert!(debug.contains("Indent"));
    assert!(debug.contains("42"));
    assert_ne!(debug, t.render());
}

#[test]
fn render_operator_literals() {
    assert_eq!(Tokens::Comma.render(), ",");
    assert_eq!(Tokens::Append.render(), "+=");
    assert_eq!(Tokens::RegexPrepend.render(), "?<=");
}

#[test]
fn identifier_agrees_with_render() {
    for (t, _) in &vocabulary() {
        assert_eq!(t.identifier(), t.render());
    }
}

#[test]
fn quoted_wraps_render_in_single_quotes() {
    for (t, _) in &vocabulary() {
        assert_eq!(t.quoted(), format!("'{}'", t.render()));
    }
    assert_eq!(Tokens::Indent(42).quoted(), "'indent 42'");
    assert_eq!(Tokens::Cond.quoted(), "''");
}

#[test]
fn only_the_no_condition_marker_renders_empty() {
    for (t, _) in &vocabulary() {
        if *t == Tokens::Cond {
            assert_eq!(t.render(), "");
        } else {
            assert!(!t.render().is_empty());
        }
    }
}

#[test]
fn vocabulary_closure() {
    let tokens = vocabulary();
    assert_eq!(tokens.len(), 37);
    for (t, expected) in &tokens {
        assert_eq!(t.render(), *expected);
    }
    let debugs: Vec<String> = tokens.iter().map(|(t, _)| t.debug_render()).collect();
    for (i, a) in debugs.iter().enumerate() {
        for (j, b) in debugs.iter().enumerate() {
            if i != j {
                assert_ne!(a, b);
            }
        }
    }
}

#[test]
fn end_block_renders_as_indent_but_differs() {
    let indent = Tokens::Indent(4);
    let end_block = Tokens::EndBlock(4);
    assert_eq!(indent.render(), end_block.render());
    assert_ne!(indent.debug_render(), end_block.debug_render());
    assert_eq!(end_block.debug_render(), "EndBlock(4)");
    assert!(indent != end_block);
}

#[test]
fn decimal_rendering() {
    assert_eq!(udec_string(0), "0");
    assert_eq!(udec_string(9), "9");
    assert_eq!(udec_string(10), "10");
    assert_eq!(udec_string(1234567890), "1234567890");
    assert_eq!(udec_string(u64::MAX), "18446744073709551615");
    assert_eq!(i32_dec_string(0), "0");
    assert_eq!(i32_dec_string(-1), "-1");
    assert_eq!(i32_dec_string(-42), "-42");
    assert_eq!(i32_dec_string(i32::MAX), "2147483647");
    assert_eq!(i32_dec_string(i32::MIN), "-2147483648");
}
