use langprint::literal::{float_literal, int_literal_fits, parse_u32, str_eq, strip_prefix, strip_suffix, trim};
use langprint::text::{indent, trim_end_matches, IndentStyle, NewLineStyle};

#[test]
fn indentation_styles() {
    assert_eq!(indent(2, 3, IndentStyle::Spaces), "      ");
    assert_eq!(indent(2, 3, IndentStyle::Tabs), "\t\t");
    assert_eq!(indent(0, 4, IndentStyle::Spaces), "");
    assert_eq!(indent(-1, 4, IndentStyle::Spaces), "");
    assert_eq!(NewLineStyle::CRLF.as_str(), "\r\n");
}

#[test]
fn trimming() {
    assert_eq!(trim("  a b \t\n"), "a b");
    assert_eq!(trim("   "), "");
    assert_eq!(trim_end_matches("x\n\n\n", "\n"), "x");
    assert_eq!(trim_end_matches("x\r\n", "\n"), "x\r");
}

#[test]
fn prefixes_and_suffixes() {
    assert_eq!(strip_prefix("repr(C)", "repr("), Some("C)"));
    assert_eq!(strip_prefix("rep", "repr("), None);
    assert_eq!(strip_suffix("align(4))", "))"), Some("align(4"));
    assert_eq!(strip_suffix("x)", "))"), None);
    assert!(str_eq("abc", "abc"));
    assert!(!str_eq("abc", "abd"));
}

#[test]
fn integer_literals() {
    assert_eq!(parse_u32("4294967295"), Some(4294967295));
    assert_eq!(parse_u32("4294967296"), None);
    assert_eq!(parse_u32("+7"), Some(7));
    assert_eq!(parse_u32("-0"), None);
    assert_eq!(parse_u32(""), None);
    assert_eq!(parse_u32("+"), None);
    assert!(int_literal_fits("-128", false, true, 128, 127));
    assert!(!int_literal_fits("128", false, true, 128, 127));
    assert!(int_literal_fits("7f", true, false, 0, 127));
    assert!(!int_literal_fits("80", true, false, 0, 127));
}

#[test]
fn float_literals() {
    assert!(float_literal("3.14"));
    assert!(float_literal("-2E+10"));
    assert!(float_literal("+.5"));
    assert!(float_literal("inFinity"));
    assert!(!float_literal("infinit"));
    assert!(!float_literal("1.2.3"));
    assert!(!float_literal("e5"));
    assert!(!float_literal(" 1"));
}
