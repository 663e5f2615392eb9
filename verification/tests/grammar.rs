use std::str::FromStr;
use table_ddl::error::{DdlError, ErrorKind, SyntaxReason};
use table_ddl::grammar::{bracketed_text, parse, parse_lowered, plain_type_of};
use table_ddl::model::FieldType;

fn reason_of(r: Result<FieldType, DdlError>) -> SyntaxReason {
    match r {
        Err(DdlError { kind: ErrorKind::Syntax(reason), .. }) => reason,
        other => panic!("expected a syntax error, got {:?}", other),
    }
}

#[test]
fn varchar_without_width_is_255_wide() {
    assert_eq!(FieldType::from_str("varchar"), Ok(FieldType::Varchar(255)));
    assert_eq!(FieldType::parse("varchar"), Ok(FieldType::Varchar(255)));
}

#[test]
fn char_without_width_is_255_wide() {
    assert_eq!(parse("char"), Ok(FieldType::Char(255)));
}

#[test]
fn widths_are_read() {
    assert_eq!(parse("varchar(64)"), Ok(FieldType::Varchar(64)));
    assert_eq!(parse("varchar(4294967295)"), Ok(FieldType::Varchar(u32::MAX)));
    assert_eq!(parse("char(12)"), Ok(FieldType::Char(12)));
    assert_eq!(parse("char(0)"), Ok(FieldType::Char(0)));
    assert_eq!(parse("char(007)"), Ok(FieldType::Char(7)));
    assert_eq!(parse("char(255)"), Ok(FieldType::Char(255)));
}

#[test]
fn width_out_of_range_is_invalid() {
    assert_eq!(reason_of(parse("char(256)")), SyntaxReason::InvalidWidth);
    assert_eq!(reason_of(parse("varchar(4294967296)")), SyntaxReason::InvalidWidth);
    assert_eq!(
        parse("char(256)"),
        Err(DdlError {
            kind: ErrorKind::Syntax(SyntaxReason::InvalidWidth),
            detail: "invalid width 256: number too large".to_string(),
        })
    );
}

#[test]
fn width_that_is_no_number_is_invalid() {
    assert_eq!(
        parse("varchar(abc)"),
        Err(DdlError {
            kind: ErrorKind::Syntax(SyntaxReason::InvalidWidth),
            detail: "invalid width abc: not a number".to_string(),
        })
    );
    assert_eq!(reason_of(parse("char(1,2)")), SyntaxReason::InvalidWidth);
}

#[test]
fn decimal_reads_precision_then_scale() {
    assert_eq!(parse("decimal(10,2)"), Ok(FieldType::Decimal(10, 2)));
    assert_eq!(parse("decimal(38,0)"), Ok(FieldType::Decimal(38, 0)));
}

#[test]
fn decimal_without_arguments_is_10_2() {
    assert_eq!(parse("decimal"), Ok(FieldType::Decimal(10, 2)));
}

#[test]
fn decimal_needs_exactly_two_arguments() {
    assert_eq!(reason_of(parse("decimal(10)")), SyntaxReason::ArgumentCount);
    assert_eq!(reason_of(parse("decimal(1,2,3)")), SyntaxReason::ArgumentCount);
    assert_eq!(
        parse("decimal(10)"),
        Err(DdlError {
            kind: ErrorKind::Syntax(SyntaxReason::ArgumentCount),
            detail: "decimal takes a precision and a scale, found 10".to_string(),
        })
    );
}

#[test]
fn decimal_arguments_must_be_numbers() {
    assert_eq!(reason_of(parse("decimal(a,2)")), SyntaxReason::InvalidPrecision);
    assert_eq!(reason_of(parse("decimal(1,b)")), SyntaxReason::InvalidScale);
    assert_eq!(
        parse("decimal(,2)"),
        Err(DdlError {
            kind: ErrorKind::Syntax(SyntaxReason::InvalidPrecision),
            detail: "invalid precision : no digits".to_string(),
        })
    );
    assert_eq!(
        parse("decimal(1,)"),
        Err(DdlError {
            kind: ErrorKind::Syntax(SyntaxReason::InvalidScale),
            detail: "invalid scale : no digits".to_string(),
        })
    );
    assert_eq!(
        reason_of(parse("decimal(99999999999999999999999999,2)")),
        SyntaxReason::InvalidPrecision
    );
}

#[test]
fn array_wraps_its_element() {
    assert_eq!(parse("array(int32)"), Ok(FieldType::Array(Box::new(FieldType::Int32))));
    assert_eq!(parse("array(varchar)"), Ok(FieldType::Array(Box::new(FieldType::Varchar(255)))));
}

#[test]
fn array_without_element_fails_in_the_element() {
    assert_eq!(
        parse("array"),
        Err(DdlError {
            kind: ErrorKind::Syntax(SyntaxReason::Element),
            detail: "array element: missing type name: ".to_string(),
        })
    );
}

#[test]
fn array_of_unknown_type_fails_in_the_element() {
    assert_eq!(
        parse("array(frobnicate)"),
        Err(DdlError {
            kind: ErrorKind::Syntax(SyntaxReason::Element),
            detail: "array element: unknown field type: frobnicate".to_string(),
        })
    );
}

#[test]
fn brackets_among_the_arguments_leave_no_arguments() {
    // The element's own brackets are no letters, digits or commas, so the
    // outer array is left without an element.
    assert_eq!(reason_of(parse("array(array(int32))")), SyntaxReason::Element);
    assert_eq!(reason_of(parse("array(varchar(10))")), SyntaxReason::Element);
}

#[test]
fn unknown_name_is_a_syntax_error() {
    let r = parse("frobnicate");
    assert_eq!(
        r,
        Err(DdlError {
            kind: ErrorKind::Syntax(SyntaxReason::UnknownType),
            detail: "unknown field type: frobnicate".to_string(),
        })
    );
    assert!(r.unwrap_err().is_syntax());
}

#[test]
fn names_that_the_grammar_does_not_know() {
    for name in ["uint64", "int64", "float64", "float16", "struct", "null", "fixedstring", "varbinary"] {
        assert_eq!(reason_of(parse(name)), SyntaxReason::UnknownType, "{}", name);
    }
}

#[test]
fn empty_text_names_no_type() {
    assert_eq!(
        parse(""),
        Err(DdlError {
            kind: ErrorKind::Syntax(SyntaxReason::MissingName),
            detail: "missing type name: ".to_string(),
        })
    );
    assert_eq!(
        parse("(10)"),
        Err(DdlError {
            kind: ErrorKind::Syntax(SyntaxReason::MissingName),
            detail: "missing type name: (10)".to_string(),
        })
    );
}

#[test]
fn plain_names() {
    let cases = [
        ("text", FieldType::Text),
        ("uint8", FieldType::UInt8),
        ("uint16", FieldType::UInt16),
        ("uint32", FieldType::UInt32),
        ("uint128", FieldType::UInt128),
        ("uint256", FieldType::UInt256),
        ("int8", FieldType::Int8),
        ("int16", FieldType::Int16),
        ("int32", FieldType::Int32),
        ("int", FieldType::Int32),
        ("int128", FieldType::Int128),
        ("int256", FieldType::Int256),
        ("float32", FieldType::Float32),
        ("double", FieldType::Double),
        ("boolean", FieldType::Boolean),
        ("datetime", FieldType::DateTime),
        ("datetime64", FieldType::DateTime64),
        ("timestamp", FieldType::Timestamp),
        ("time", FieldType::Time),
        ("date", FieldType::Date),
        ("json", FieldType::Json),
        ("ipv4", FieldType::IPv4),
        ("ipv6", FieldType::IPv6),
    ];
    for (text, expected) in cases {
        assert_eq!(plain_type_of(text), Some(expected), "{}", text);
    }
    assert_eq!(plain_type_of("char"), None);
    assert_eq!(plain_type_of(""), None);
}

#[test]
fn int_and_int32_are_one_type() {
    assert_eq!(parse("int"), Ok(FieldType::Int32));
    assert_eq!(parse("int32"), Ok(FieldType::Int32));
}

#[test]
fn case_does_not_matter() {
    assert_eq!(parse("VARCHAR(10)"), Ok(FieldType::Varchar(10)));
    assert_eq!(parse("DateTime64"), Ok(FieldType::DateTime64));
    assert_eq!(parse("Array(Int32)"), Ok(FieldType::Array(Box::new(FieldType::Int32))));
}

#[test]
fn lowered_text_is_read_as_it_stands() {
    assert_eq!(parse_lowered("varchar(10)"), Ok(FieldType::Varchar(10)));
    assert_eq!(reason_of(parse_lowered("VARCHAR(10)")), SyntaxReason::UnknownType);
}

#[test]
fn lowercasing_follows_unicode() {
    // The Kelvin sign is no ASCII letter, but its lowercase form is `k`.
    assert_eq!(reason_of(parse("char(\u{212A})")), SyntaxReason::InvalidWidth);
    assert_eq!(parse_lowered("char(\u{212A})"), Ok(FieldType::Char(255)));
}

#[test]
fn arguments_ignored_by_plain_names() {
    assert_eq!(parse("int32(11)"), Ok(FieldType::Int32));
    assert_eq!(parse("text(abc)"), Ok(FieldType::Text));
}

#[test]
fn malformed_arguments_count_as_none() {
    assert_eq!(parse("varchar(1 0)"), Ok(FieldType::Varchar(255)));
    assert_eq!(parse("varchar(10"), Ok(FieldType::Varchar(255)));
    assert_eq!(parse("varchar()"), Ok(FieldType::Varchar(255)));
    assert_eq!(parse("decimal(10;2)"), Ok(FieldType::Decimal(10, 2)));
    assert_eq!(parse("char(-1)"), Ok(FieldType::Char(255)));
}

#[test]
fn what_follows_the_closing_bracket_is_ignored() {
    assert_eq!(parse("varchar(10)xyz"), Ok(FieldType::Varchar(10)));
    assert_eq!(parse("varchar(10))"), Ok(FieldType::Varchar(10)));
}

#[test]
fn blanks_belong_to_the_name() {
    assert_eq!(reason_of(parse(" int")), SyntaxReason::UnknownType);
    assert_eq!(reason_of(parse("int ")), SyntaxReason::UnknownType);
}

#[test]
fn bracketed_arguments() {
    assert_eq!(bracketed_text("(10,2)"), "10,2");
    assert_eq!(bracketed_text("(int32)rest"), "int32");
    assert_eq!(bracketed_text("(a)(b)"), "a");
    assert_eq!(bracketed_text("()"), "");
    assert_eq!(bracketed_text("(10"), "");
    assert_eq!(bracketed_text("(1 0)"), "");
    assert_eq!(bracketed_text(""), "");
    assert_eq!(bracketed_text("10)"), "");
    assert_eq!(bracketed_text("(ABC,x9)"), "ABC,x9");
    assert_eq!(bracketed_text("(\u{e9})"), "");
}
