use field_defaults::default_field_values;
use field_defaults::tokens::{Delim, ErrorKind, ParseError, Tok};

fn id(s: &str) -> Tok {
    Tok::Ident(s.to_string())
}

fn p(c: char) -> Tok {
    Tok::Punct(c, false)
}

fn lit(s: &str) -> Tok {
    Tok::Lit(s.to_string())
}

fn op(d: Delim) -> Tok {
    Tok::Open(d)
}

fn cl(d: Delim) -> Tok {
    Tok::Close(d)
}

#[test]
fn positional_terminator_is_mandatory() {
    // struct S(Int = 1) without the terminator is a hard parse error,
    // pinpointed after the closing parenthesis.
    let toks = vec![
        id("struct"),
        id("S"),
        op(Delim::Paren),
        id("Int"),
        p('='),
        lit("1"),
        cl(Delim::Paren),
    ];
    let e = default_field_values(&toks).unwrap_err();
    assert_eq!(
        e,
        ParseError {
            kind: ErrorKind::ExpectedSemicolon,
            pos: 7
        }
    );
}

#[test]
fn missing_colon_is_reported_at_the_type() {
    let toks = vec![
        id("struct"),
        id("S"),
        op(Delim::Brace),
        id("x"),
        id("u32"),
        cl(Delim::Brace),
    ];
    let e = default_field_values(&toks).unwrap_err();
    assert_eq!(
        e,
        ParseError {
            kind: ErrorKind::ExpectedColon,
            pos: 4
        }
    );
}

#[test]
fn empty_default_expression_is_an_error() {
    let toks = vec![
        id("struct"),
        id("S"),
        op(Delim::Brace),
        id("x"),
        p(':'),
        id("u32"),
        p('='),
        p(','),
        cl(Delim::Brace),
    ];
    let e = default_field_values(&toks).unwrap_err();
    assert_eq!(
        e,
        ParseError {
            kind: ErrorKind::ExpectedExpr,
            pos: 7
        }
    );
}

#[test]
fn a_second_definition_is_trailing_input() {
    let toks = vec![
        id("struct"),
        id("A"),
        op(Delim::Brace),
        cl(Delim::Brace),
        id("struct"),
        id("B"),
        op(Delim::Brace),
        cl(Delim::Brace),
    ];
    let e = default_field_values(&toks).unwrap_err();
    assert_eq!(
        e,
        ParseError {
            kind: ErrorKind::TrailingTokens,
            pos: 4
        }
    );
}

#[test]
fn the_struct_keyword_is_required() {
    let toks = vec![id("enum"), id("S"), op(Delim::Brace), cl(Delim::Brace)];
    let e = default_field_values(&toks).unwrap_err();
    assert_eq!(
        e,
        ParseError {
            kind: ErrorKind::ExpectedStruct,
            pos: 0
        }
    );
}

#[test]
fn a_body_must_follow_the_header() {
    let toks = vec![id("struct"), id("S"), p(';')];
    let e = default_field_values(&toks).unwrap_err();
    assert_eq!(
        e,
        ParseError {
            kind: ErrorKind::ExpectedBody,
            pos: 2
        }
    );
}

#[test]
fn an_unclosed_body_is_an_error() {
    let toks = vec![
        id("struct"),
        id("S"),
        op(Delim::Brace),
        id("x"),
        p(':'),
        id("u32"),
    ];
    let e = default_field_values(&toks).unwrap_err();
    assert_eq!(e.kind, ErrorKind::UnexpectedEnd);
    assert_eq!(e.pos, 6);
}

#[test]
fn a_malformed_attribute_is_an_error() {
    let toks = vec![
        p('#'),
        id("derive"),
        id("struct"),
        id("S"),
        op(Delim::Brace),
        cl(Delim::Brace),
    ];
    let e = default_field_values(&toks).unwrap_err();
    assert_eq!(
        e,
        ParseError {
            kind: ErrorKind::MalformedAttribute,
            pos: 1
        }
    );
}

#[test]
fn a_field_name_must_be_an_identifier() {
    let toks = vec![
        id("struct"),
        id("S"),
        op(Delim::Brace),
        lit("3"),
        p(':'),
        id("u32"),
        cl(Delim::Brace),
    ];
    let e = default_field_values(&toks).unwrap_err();
    assert_eq!(
        e,
        ParseError {
            kind: ErrorKind::ExpectedIdent,
            pos: 3
        }
    );
}
