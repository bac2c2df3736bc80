use field_defaults::model::Attr;
use field_defaults::rewrite::{has_derive_default, strip_default_from_derive};
use field_defaults::tokens::{Delim, Tok};

fn id(s: &str) -> Tok {
    Tok::Ident(s.to_string())
}

fn p(c: char) -> Tok {
    Tok::Punct(c, false)
}

fn pj(c: char) -> Tok {
    Tok::Punct(c, true)
}

fn derive_attr(args: Vec<Tok>) -> Attr {
    let mut full = vec![Tok::Open(Delim::Paren)];
    full.extend(args);
    full.push(Tok::Close(Delim::Paren));
    Attr {
        name: "derive".to_string(),
        args: full,
    }
}

#[test]
fn marker_alone_removes_the_whole_attribute() {
    // [marker]: rewriting leaves no empty derive attribute behind.
    let attrs = vec![derive_attr(vec![id("Default")])];
    assert!(has_derive_default(&attrs));
    let out = strip_default_from_derive(&attrs);
    assert_eq!(out, Vec::<Attr>::new());
}

#[test]
fn marker_with_another_trait_keeps_the_other() {
    // [marker, Copyable]: the rewritten attribute retains Copyable only.
    let attrs = vec![derive_attr(vec![id("Default"), p(','), id("Copyable")])];
    assert!(has_derive_default(&attrs));
    let out = strip_default_from_derive(&attrs);
    assert_eq!(out, vec![derive_attr(vec![id("Copyable")])]);
}

#[test]
fn other_attributes_survive_in_order() {
    let attrs = vec![
        Attr {
            name: "doc".to_string(),
            args: vec![p('='), Tok::Lit("\"a doc line\"".to_string())],
        },
        derive_attr(vec![id("Clone"), p(','), id("Default"), p(','), id("Debug")]),
        Attr {
            name: "repr".to_string(),
            args: vec![Tok::Open(Delim::Paren), id("C"), Tok::Close(Delim::Paren)],
        },
    ];
    assert!(has_derive_default(&attrs));
    let out = strip_default_from_derive(&attrs);
    assert_eq!(out.len(), 3);
    assert_eq!(out[0], attrs[0]);
    assert_eq!(out[1], derive_attr(vec![id("Clone"), p(','), id("Debug")]));
    assert_eq!(out[2], attrs[2]);
}

#[test]
fn unrecognized_derive_arguments_are_kept_verbatim() {
    // A derive list that is not a plain identifier list (a path inside) is
    // neither recognized as carrying the marker nor rewritten.
    let attrs = vec![derive_attr(vec![
        id("serde"),
        pj(':'),
        p(':'),
        id("Serialize"),
    ])];
    assert!(!has_derive_default(&attrs));
    let out = strip_default_from_derive(&attrs);
    assert_eq!(out, attrs);
}

#[test]
fn trailing_comma_in_derive_list_is_accepted() {
    let attrs = vec![derive_attr(vec![id("Default"), p(',')])];
    assert!(has_derive_default(&attrs));
    let out = strip_default_from_derive(&attrs);
    assert_eq!(out, Vec::<Attr>::new());
}

#[test]
fn marker_absent_leaves_list_unchanged() {
    let attrs = vec![derive_attr(vec![id("Clone"), p(','), id("Debug")])];
    assert!(!has_derive_default(&attrs));
    let out = strip_default_from_derive(&attrs);
    assert_eq!(out, attrs);
}
