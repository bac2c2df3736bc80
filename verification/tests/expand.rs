use field_defaults::default_field_values;
use field_defaults::emit::{
    render_ctor_args_from, render_ctor_inits_from, render_dflt_inits_from,
    render_elem_ctor_args_from, render_elem_ctor_inits_from, render_elem_dflt_inits_from,
};
use field_defaults::model::{DefaultSpec, StructKind};
use field_defaults::parser::parse_definition;
use field_defaults::rewrite::{has_derive_default, strip_default_from_derive};
use field_defaults::tokens::{Delim, Tok};

fn id(s: &str) -> Tok {
    Tok::Ident(s.to_string())
}

fn p(c: char) -> Tok {
    Tok::Punct(c, false)
}

fn pj(c: char) -> Tok {
    Tok::Punct(c, true)
}

fn lit(s: &str) -> Tok {
    Tok::Lit(s.to_string())
}

fn lt(s: &str) -> Tok {
    Tok::Lifetime(s.to_string())
}

fn op(d: Delim) -> Tok {
    Tok::Open(d)
}

fn cl(d: Delim) -> Tok {
    Tok::Close(d)
}

/// `Default::default()` as tokens.
fn dc() -> Vec<Tok> {
    vec![
        id("Default"),
        pj(':'),
        p(':'),
        id("default"),
        op(Delim::Paren),
        cl(Delim::Paren),
    ]
}

fn example_tokens() -> Vec<Tok> {
    vec![
        p('#'),
        op(Delim::Bracket),
        id("derive"),
        op(Delim::Paren),
        id("Default"),
        p(','),
        id("Debug"),
        cl(Delim::Paren),
        cl(Delim::Bracket),
        id("struct"),
        id("Example"),
        p('<'),
        lt("a"),
        p(','),
        id("T"),
        p(','),
        id("T2"),
        p(':'),
        id("Default"),
        p('>'),
        id("where"),
        id("T"),
        p(':'),
        id("Default"),
        op(Delim::Brace),
        id("i"),
        p(':'),
        id("u32"),
        p('='),
        lit("3"),
        p(','),
        id("j"),
        p(':'),
        id("i128"),
        p(','),
        id("i_option"),
        p(':'),
        id("Option"),
        p('<'),
        id("u64"),
        p('>'),
        p('='),
        id("Some"),
        op(Delim::Paren),
        lit("1000"),
        cl(Delim::Paren),
        p(','),
        id("string"),
        p(':'),
        id("String"),
        p('='),
        op(Delim::Brace),
        id("let"),
        id("s"),
        p('='),
        id("format"),
        p('!'),
        op(Delim::Paren),
        lit("\"{} {}\""),
        p(','),
        lit("\"hello\""),
        p(','),
        lit("\"world\""),
        cl(Delim::Paren),
        p(';'),
        id("s"),
        cl(Delim::Brace),
        p(','),
        id("os"),
        p(':'),
        id("Option"),
        p('<'),
        id("String"),
        p('>'),
        p(','),
        id("foo"),
        p(':'),
        id("Foo"),
        p('='),
        id("_"),
        p(','),
        id("bytes"),
        p(':'),
        p('&'),
        lt("a"),
        op(Delim::Bracket),
        id("u8"),
        cl(Delim::Bracket),
        p('='),
        lit("b\"hello world\""),
        p(','),
        id("t"),
        p(':'),
        id("T"),
        p(','),
        id("t2"),
        p(':'),
        id("T2"),
        p(','),
        cl(Delim::Brace),
    ]
}

fn example_with_default_trait_tokens() -> Vec<Tok> {
    vec![
        p('#'),
        op(Delim::Bracket),
        id("derive"),
        op(Delim::Paren),
        id("Default"),
        p(','),
        id("Clone"),
        p(','),
        id("Debug"),
        cl(Delim::Paren),
        cl(Delim::Bracket),
        id("pub"),
        op(Delim::Paren),
        id("crate"),
        cl(Delim::Paren),
        id("struct"),
        id("ExampleWithDefaultTrait"),
        op(Delim::Brace),
        id("i"),
        p(':'),
        id("u32"),
        p(','),
        id("j"),
        p(':'),
        id("u32"),
        p('='),
        lit("100"),
        p('*'),
        lit("4"),
        p(','),
        id("hello"),
        p(':'),
        id("String"),
        p('='),
        id("get"),
        op(Delim::Paren),
        cl(Delim::Paren),
        p(','),
        cl(Delim::Brace),
    ]
}

fn tuple_tokens() -> Vec<Tok> {
    vec![
        p('#'),
        op(Delim::Bracket),
        id("derive"),
        op(Delim::Paren),
        id("Default"),
        p(','),
        id("Debug"),
        cl(Delim::Paren),
        cl(Delim::Bracket),
        id("struct"),
        id("Tuple"),
        p('<'),
        lt("a"),
        p(','),
        id("T"),
        p(':'),
        id("Default"),
        p('>'),
        op(Delim::Paren),
        id("T"),
        p(','),
        p('#'),
        op(Delim::Bracket),
        id("allow"),
        op(Delim::Paren),
        id("unused"),
        cl(Delim::Paren),
        cl(Delim::Bracket),
        p('&'),
        lt("a"),
        id("str"),
        p('='),
        lit("\"abc\""),
        p(','),
        id("Foo"),
        p('='),
        id("_"),
        p(','),
        id("Option"),
        p('<'),
        id("String"),
        p('>'),
        cl(Delim::Paren),
        p(';'),
    ]
}

#[test]
fn defaults() {
    // The brace-delimited example: mixed explicit, implicit and absent
    // defaults under generics and a where clause.
    let toks = example_tokens();
    let b = match parse_definition(&toks).unwrap() {
        StructKind::Braced(b) => b,
        _ => panic!("expected the brace-delimited shape"),
    };
    assert_eq!(b.header.name, "Example");
    assert_eq!(b.fields.len(), 9);
    let names: Vec<&str> = b.fields.iter().map(|f| f.name.as_str()).collect();
    assert_eq!(
        names,
        vec!["i", "j", "i_option", "string", "os", "foo", "bytes", "t", "t2"]
    );

    // new(0, None, 1, "foo") gives i == 3: the explicit default is the
    // literal 3, evaluated in the constructor.
    assert_eq!(b.fields[0].default, DefaultSpec::Explicit(vec![lit("3")]));
    // j == 0 because j has no default and the caller's first argument is
    // forwarded unchanged.
    assert_eq!(b.fields[1].default, DefaultSpec::Absent);
    // i_option == Some(1000)
    assert_eq!(
        b.fields[2].default,
        DefaultSpec::Explicit(vec![
            id("Some"),
            op(Delim::Paren),
            lit("1000"),
            cl(Delim::Paren)
        ])
    );
    // string == "hello world": the block expression is captured verbatim.
    match &b.fields[3].default {
        DefaultSpec::Explicit(e) => {
            assert_eq!(e[0], op(Delim::Brace));
            assert_eq!(e[e.len() - 1], cl(Delim::Brace));
            assert!(e.contains(&lit("\"hello\"")));
            assert!(e.contains(&lit("\"world\"")));
        }
        other => panic!("string field: {:?}", other),
    }
    // os == None: forwarded parameter.
    assert_eq!(b.fields[4].default, DefaultSpec::Absent);
    // foo == Foo's own default (bar == "bar"): the `_` shorthand.
    assert_eq!(b.fields[5].default, DefaultSpec::Implicit);
    // bytes == b"hello world"
    assert_eq!(
        b.fields[6].default,
        DefaultSpec::Explicit(vec![lit("b\"hello world\"")])
    );
    // t == 1 and t2 == "foo": both forwarded parameters.
    assert_eq!(b.fields[7].default, DefaultSpec::Absent);
    assert_eq!(b.fields[8].default, DefaultSpec::Absent);

    // The constructor takes exactly j, os, t, t2, in that order.
    let args = render_ctor_args_from(&b.fields, 0);
    assert_eq!(
        args,
        vec![
            id("j"),
            p(':'),
            id("i128"),
            p(','),
            id("os"),
            p(':'),
            id("Option"),
            p('<'),
            id("String"),
            p('>'),
            p(','),
            id("t"),
            p(':'),
            id("T"),
            p(','),
            id("t2"),
            p(':'),
            id("T2"),
            p(','),
        ]
    );

    // The marker is present, so the rewritten derive list keeps Debug alone
    // and the expansion carries a Default impl.
    assert!(has_derive_default(&b.header.attrs));
    let stripped = strip_default_from_derive(&b.header.attrs);
    assert_eq!(stripped.len(), 1);
    assert_eq!(stripped[0].name, "derive");
    assert_eq!(
        stripped[0].args,
        vec![op(Delim::Paren), id("Debug"), cl(Delim::Paren)]
    );
    let out = default_field_values(&toks).unwrap();
    assert_eq!(
        &out[0..9],
        &[
            p('#'),
            op(Delim::Bracket),
            id("derive"),
            op(Delim::Paren),
            id("Debug"),
            cl(Delim::Paren),
            cl(Delim::Bracket),
            id("struct"),
            id("Example"),
        ]
    );

    // The second definition: pub(crate) visibility, all-explicit arithmetic
    // and call defaults.
    let toks2 = example_with_default_trait_tokens();
    let b2 = match parse_definition(&toks2).unwrap() {
        StructKind::Braced(b) => b,
        _ => panic!("expected the brace-delimited shape"),
    };
    assert_eq!(
        b2.header.vis,
        vec![id("pub"), op(Delim::Paren), id("crate"), cl(Delim::Paren)]
    );
    // new(101).i == 101: i is forwarded; .j == 400: the expression 100 * 4.
    assert_eq!(b2.fields[0].default, DefaultSpec::Absent);
    assert_eq!(
        b2.fields[1].default,
        DefaultSpec::Explicit(vec![lit("100"), p('*'), lit("4")])
    );
    assert_eq!(
        b2.fields[2].default,
        DefaultSpec::Explicit(vec![id("get"), op(Delim::Paren), cl(Delim::Paren)])
    );
    let inits2 = render_ctor_inits_from(&b2.fields, 0);
    let mut expected_inits2 = vec![id("i"), p(',')];
    expected_inits2.extend(vec![id("j"), p(':'), lit("100"), p('*'), lit("4"), p(',')]);
    expected_inits2.extend(vec![
        id("hello"),
        p(':'),
        id("get"),
        op(Delim::Paren),
        cl(Delim::Paren),
        p(','),
    ]);
    assert_eq!(inits2, expected_inits2);
    // default().i == 0 (u32's own default), .j == 400, .hello == "hello world".
    let dflt2 = render_dflt_inits_from(&b2.fields, 0);
    let mut expected_dflt2 = vec![id("i"), p(':')];
    expected_dflt2.extend(dc());
    expected_dflt2.push(p(','));
    expected_dflt2.extend(vec![id("j"), p(':'), lit("100"), p('*'), lit("4"), p(',')]);
    expected_dflt2.extend(vec![
        id("hello"),
        p(':'),
        id("get"),
        op(Delim::Paren),
        cl(Delim::Paren),
        p(','),
    ]);
    assert_eq!(dflt2, expected_dflt2);

    // The positional definition: Tuple::<bool>::default() gives
    // (false, "abc", Foo's default, None).
    let toks3 = tuple_tokens();
    let t3 = match parse_definition(&toks3).unwrap() {
        StructKind::Parenthesized(t) => t,
        _ => panic!("expected the positional shape"),
    };
    assert_eq!(t3.elements.len(), 4);
    assert_eq!(t3.elements[0].default, DefaultSpec::Absent);
    assert_eq!(
        t3.elements[1].default,
        DefaultSpec::Explicit(vec![lit("\"abc\"")])
    );
    assert_eq!(t3.elements[2].default, DefaultSpec::Implicit);
    assert_eq!(t3.elements[3].default, DefaultSpec::Absent);
    let mut expected_dflt3: Vec<Tok> = Vec::new();
    expected_dflt3.extend(dc());
    expected_dflt3.push(p(','));
    expected_dflt3.extend(vec![lit("\"abc\""), p(',')]);
    expected_dflt3.extend(dc());
    expected_dflt3.push(p(','));
    expected_dflt3.extend(dc());
    expected_dflt3.push(p(','));
    assert_eq!(render_elem_dflt_inits_from(&t3.elements, 0), expected_dflt3);
    assert!(default_field_values(&toks3).is_ok());
}

#[test]
fn new() {
    // Every field carries a default, so the constructor takes nothing.
    let toks = vec![
        id("struct"),
        id("Foo"),
        p('<'),
        lt("a"),
        p('>'),
        op(Delim::Brace),
        id("a"),
        p(':'),
        id("i32"),
        p('='),
        lit("1"),
        p(','),
        id("t"),
        p(':'),
        p('&'),
        lt("a"),
        id("str"),
        p('='),
        lit("\"hello\""),
        p(','),
        cl(Delim::Brace),
    ];
    let b = match parse_definition(&toks).unwrap() {
        StructKind::Braced(b) => b,
        _ => panic!("expected the brace-delimited shape"),
    };
    assert_eq!(render_ctor_args_from(&b.fields, 0), Vec::<Tok>::new());
    let out = default_field_values(&toks).unwrap();
    // No marker was given, so no Default impl is emitted.
    assert!(!out.contains(&id("Default")));
    println!("in nightly");
}

#[test]
fn exact_expansion_of_minimal_struct() {
    // struct P { x: u32 = 1 } without the marker: the whole emission, token
    // for token.
    let toks = vec![
        id("struct"),
        id("P"),
        op(Delim::Brace),
        id("x"),
        p(':'),
        id("u32"),
        p('='),
        lit("1"),
        p(','),
        cl(Delim::Brace),
    ];
    let out = default_field_values(&toks).unwrap();
    let expected = vec![
        id("struct"),
        id("P"),
        op(Delim::Brace),
        id("x"),
        p(':'),
        id("u32"),
        p(','),
        cl(Delim::Brace),
        id("impl"),
        id("P"),
        op(Delim::Brace),
        id("pub"),
        id("fn"),
        id("new"),
        op(Delim::Paren),
        cl(Delim::Paren),
        pj('-'),
        p('>'),
        id("Self"),
        op(Delim::Brace),
        id("Self"),
        op(Delim::Brace),
        id("x"),
        p(':'),
        lit("1"),
        p(','),
        cl(Delim::Brace),
        cl(Delim::Brace),
        cl(Delim::Brace),
    ];
    assert_eq!(out, expected);
    // Determinism: the same input gives identical output.
    let again = default_field_values(&toks).unwrap();
    assert_eq!(again, expected);
}

#[test]
fn constructor_takes_only_undefaulted_field() {
    // fields i: Int = 3 and j: Int (no default): the constructor signature
    // is new(j: Int); i resolves to 3, j to the forwarded parameter.
    let toks = vec![
        id("struct"),
        id("S"),
        op(Delim::Brace),
        id("i"),
        p(':'),
        id("Int"),
        p('='),
        lit("3"),
        p(','),
        id("j"),
        p(':'),
        id("Int"),
        p(','),
        cl(Delim::Brace),
    ];
    let b = match parse_definition(&toks).unwrap() {
        StructKind::Braced(b) => b,
        _ => panic!("expected the brace-delimited shape"),
    };
    assert_eq!(
        render_ctor_args_from(&b.fields, 0),
        vec![id("j"), p(':'), id("Int"), p(',')]
    );
    assert_eq!(
        render_ctor_inits_from(&b.fields, 0),
        vec![id("i"), p(':'), lit("3"), p(','), id("j"), p(',')]
    );
}

#[test]
fn implicit_default_resolves_to_the_types_own_default() {
    // flag: Bool = _ with the marker present: the default instance sets
    // flag to Bool's own default.
    let toks = vec![
        p('#'),
        op(Delim::Bracket),
        id("derive"),
        op(Delim::Paren),
        id("Default"),
        cl(Delim::Paren),
        cl(Delim::Bracket),
        id("struct"),
        id("S"),
        op(Delim::Brace),
        id("flag"),
        p(':'),
        id("Bool"),
        p('='),
        id("_"),
        p(','),
        cl(Delim::Brace),
    ];
    let b = match parse_definition(&toks).unwrap() {
        StructKind::Braced(b) => b,
        _ => panic!("expected the brace-delimited shape"),
    };
    // `_` never requires a constructor parameter.
    assert_eq!(render_ctor_args_from(&b.fields, 0), Vec::<Tok>::new());
    let mut expected = vec![id("flag"), p(':')];
    expected.extend(dc());
    expected.push(p(','));
    assert_eq!(render_dflt_inits_from(&b.fields, 0), expected);
    // The emptied derive list disappears: the output starts at the struct.
    let out = default_field_values(&toks).unwrap();
    assert_eq!(out[0], id("struct"));
    // The default instance is emitted.
    assert!(out.contains(&id("Default")));
    assert!(out.contains(&id("for")));
}

#[test]
fn positional_all_defaulted() {
    // (Int = 1, Text = "abc"): new() takes nothing; position 0 is 1 and
    // position 1 is "abc".
    let toks = vec![
        id("struct"),
        id("S"),
        op(Delim::Paren),
        id("Int"),
        p('='),
        lit("1"),
        p(','),
        id("Text"),
        p('='),
        lit("\"abc\""),
        p(','),
        cl(Delim::Paren),
        p(';'),
    ];
    let t = match parse_definition(&toks).unwrap() {
        StructKind::Parenthesized(t) => t,
        _ => panic!("expected the positional shape"),
    };
    assert_eq!(render_elem_ctor_args_from(&t.elements, 0), Vec::<Tok>::new());
    assert_eq!(
        render_elem_ctor_inits_from(&t.elements, 0),
        vec![lit("1"), p(','), lit("\"abc\""), p(',')]
    );
    let out = default_field_values(&toks).unwrap();
    let expected = vec![
        id("struct"),
        id("S"),
        op(Delim::Paren),
        id("Int"),
        p(','),
        id("Text"),
        p(','),
        cl(Delim::Paren),
        p(';'),
        id("impl"),
        id("S"),
        op(Delim::Brace),
        id("pub"),
        id("fn"),
        id("new"),
        op(Delim::Paren),
        cl(Delim::Paren),
        pj('-'),
        p('>'),
        id("Self"),
        op(Delim::Brace),
        id("Self"),
        op(Delim::Paren),
        lit("1"),
        p(','),
        lit("\"abc\""),
        p(','),
        cl(Delim::Paren),
        cl(Delim::Brace),
        cl(Delim::Brace),
    ];
    assert_eq!(out, expected);
}

#[test]
fn positional_undefaulted_elements_get_positional_names() {
    // (Int, Text = "abc", Int): positions 0 and 2 become parameters _0, _2.
    let toks = vec![
        id("struct"),
        id("S"),
        op(Delim::Paren),
        id("Int"),
        p(','),
        id("Text"),
        p('='),
        lit("\"abc\""),
        p(','),
        id("Int"),
        cl(Delim::Paren),
        p(';'),
    ];
    let t = match parse_definition(&toks).unwrap() {
        StructKind::Parenthesized(t) => t,
        _ => panic!("expected the positional shape"),
    };
    assert_eq!(
        render_elem_ctor_args_from(&t.elements, 0),
        vec![
            id("_0"),
            p(':'),
            id("Int"),
            p(','),
            id("_2"),
            p(':'),
            id("Int"),
            p(','),
        ]
    );
    assert_eq!(
        render_elem_ctor_inits_from(&t.elements, 0),
        vec![id("_0"), p(','), lit("\"abc\""), p(','), id("_2"), p(',')]
    );
}

#[test]
fn positional_identifiers_reach_two_digits() {
    // Eleven elements, all defaulted but the last: its synthesized
    // parameter name is _10.
    let mut toks = vec![id("struct"), id("Wide"), op(Delim::Paren)];
    for _ in 0..10 {
        toks.extend(vec![id("Int"), p('='), lit("7"), p(',')]);
    }
    toks.push(id("Int"));
    toks.push(cl(Delim::Paren));
    toks.push(p(';'));
    let t = match parse_definition(&toks).unwrap() {
        StructKind::Parenthesized(t) => t,
        _ => panic!("expected the positional shape"),
    };
    assert_eq!(t.elements.len(), 11);
    assert_eq!(
        render_elem_ctor_args_from(&t.elements, 0),
        vec![id("_10"), p(':'), id("Int"), p(',')]
    );
}
