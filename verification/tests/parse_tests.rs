use sigtok::parse_type;
use sigtok::Primitive;
use sigtok::RangeToken;
use sigtok::Token;
use sigtok::TokenStream;

fn txt(s: &str) -> Token {
    Token::Text(s.as_bytes().to_vec())
}

fn ident(s: &str) -> Token {
    Token::Identifier(s.as_bytes().to_vec())
}

fn ty(v: Vec<Token>) -> Token {
    Token::Type(TokenStream(v))
}

fn nested(v: Vec<Token>) -> Token {
    Token::Nested(TokenStream(v))
}

fn named(s: &str) -> Token {
    Token::Primitive(Primitive::Named(s.as_bytes().to_vec()))
}

fn rf(s: &str) -> Token {
    Token::Primitive(Primitive::Ref(s.as_bytes().to_vec()))
}

fn ptr(s: &str) -> Token {
    Token::Primitive(Primitive::Ptr(s.as_bytes().to_vec()))
}

fn prim(p: Primitive) -> Token {
    Token::Primitive(p)
}

fn render_token(t: &Token, out: &mut Vec<u8>) {
    match t {
        Token::Text(v) | Token::Identifier(v) | Token::AssocType(v) => out.extend_from_slice(v),
        Token::Type(ts) | Token::Nested(ts) => {
            for inner in &ts.0 {
                render_token(inner, out);
            }
        }
        Token::Primitive(p) => match p {
            Primitive::Ref(v) => {
                out.push(b'&');
                out.extend_from_slice(v);
            }
            Primitive::Ptr(v) => {
                out.push(b'*');
                out.extend_from_slice(v);
            }
            Primitive::SliceStart => out.push(b'['),
            Primitive::SliceEnd => out.push(b']'),
            Primitive::TupleStart => out.push(b'('),
            Primitive::TupleEnd => out.push(b')'),
            Primitive::Unit => out.extend_from_slice(b"()"),
            Primitive::Named(v) => out.extend_from_slice(v),
        },
        Token::Range(r) => match r {
            RangeToken::RangeToInclusive | RangeToken::RangeInclusive => {
                out.extend_from_slice(b"..=")
            }
            _ => out.extend_from_slice(b".."),
        },
        Token::Where => out.extend_from_slice(b"where"),
    }
}

fn render(ts: &TokenStream) -> Vec<u8> {
    let mut out = Vec::new();
    for t in &ts.0 {
        render_token(t, &mut out);
    }
    out
}

fn assert_round_trip(input: &str) {
    let ts = parse_type(input.as_bytes()).expect("failed to parse");
    assert_eq!(render(&ts), input.as_bytes().to_vec(), "round trip of {input:?}");
}

#[test]
fn scenario_plain_identifier() {
    let ts = parse_type(b"Foo").unwrap();
    assert_eq!(ts, TokenStream(vec![ident("Foo")]));
}

#[test]
fn scenario_unit() {
    let ts = parse_type(b"()").unwrap();
    assert_eq!(ts, TokenStream(vec![prim(Primitive::Unit)]));
}

#[test]
fn scenario_ref_mut_lifetime() {
    let ts = parse_type(b"&mut 'a Foo").unwrap();
    assert_eq!(
        ts,
        TokenStream(vec![rf("mut 'a"), txt(" "), ty(vec![ident("Foo")])])
    );
}

#[test]
fn scenario_bounded_range() {
    let ts = parse_type(b"usize.. usize").unwrap();
    assert_eq!(
        ts,
        TokenStream(vec![
            ty(vec![named("usize")]),
            Token::Range(RangeToken::Range),
            txt(" "),
            ty(vec![named("usize")]),
        ])
    );
}

#[test]
fn scenario_union_alternatives() {
    // A union is a type-expression production; a tuple embeds one.
    let ts = parse_type(b"(Foo | &Bar<T> | (Baz) -> bool)").unwrap();
    let union = vec![
        ty(vec![ident("Foo")]),
        txt(" | "),
        ty(vec![
            rf(""),
            ty(vec![ident("Bar"), txt("<"), ty(vec![ident("T")]), txt(">")]),
        ]),
        txt(" | "),
        ty(vec![
            txt("("),
            nested(vec![ty(vec![ident("Baz")])]),
            txt(") -> "),
            ty(vec![named("bool")]),
        ]),
    ];
    assert_eq!(
        ts,
        TokenStream(vec![
            prim(Primitive::TupleStart),
            nested(union),
            prim(Primitive::TupleEnd),
        ])
    );
}

#[test]
fn scenario_unterminated_generic_fails() {
    assert!(parse_type(b"Foo<").is_err());
}

#[test]
fn rejects_malformed_inputs() {
    assert!(parse_type(b"").is_err());
    assert!(parse_type(b"[Foo").is_err());
    assert!(parse_type(b"(Foo").is_err());
    assert!(parse_type(b"Foo Bar").is_err());
    assert!(parse_type(b"Foo>").is_err());
    assert!(parse_type(b"&").is_err());
    assert!(parse_type(b"*Foo").is_err());
    assert!(parse_type(b"Foo..=").is_err());
    assert!(parse_type(b"..=").is_err());
}

#[test]
fn parses_deterministically() {
    let a = parse_type(b"Option<&'a [Foo]>").unwrap();
    let b = parse_type(b"Option<&'a [Foo]>").unwrap();
    assert_eq!(a, b);
}

#[test]
fn named_types() {
    assert_eq!(
        parse_type(b"Option<Foo>").unwrap(),
        TokenStream(vec![
            ident("Option"),
            txt("<"),
            ty(vec![ident("Foo")]),
            txt(">"),
        ])
    );
    assert_eq!(
        parse_type(b"Foo::Err").unwrap(),
        TokenStream(vec![
            ty(vec![ident("Foo")]),
            txt("::"),
            Token::AssocType(b"Err".to_vec()),
        ])
    );
    assert_eq!(
        parse_type(b"Box<dyn Foo>").unwrap(),
        TokenStream(vec![
            ident("Box"),
            txt("<"),
            ty(vec![txt("dyn "), ty(vec![ident("Foo")])]),
            txt(">"),
        ])
    );
}

#[test]
fn references_and_pointers() {
    assert_eq!(
        parse_type(b"&Foo").unwrap(),
        TokenStream(vec![rf(""), ty(vec![ident("Foo")])])
    );
    assert_eq!(
        parse_type(b"&'a Foo").unwrap(),
        TokenStream(vec![rf("'a"), txt(" "), ty(vec![ident("Foo")])])
    );
    assert_eq!(
        parse_type(b"&[Foo]").unwrap(),
        TokenStream(vec![
            rf(""),
            ty(vec![
                prim(Primitive::SliceStart),
                ty(vec![ident("Foo")]),
                prim(Primitive::SliceEnd),
            ]),
        ])
    );
    assert_eq!(
        parse_type(b"&mut Foo").unwrap(),
        TokenStream(vec![rf("mut"), txt(" "), ty(vec![ident("Foo")])])
    );
    assert_eq!(
        parse_type(b"&dyn Foo").unwrap(),
        TokenStream(vec![
            rf(""),
            ty(vec![txt("dyn "), ty(vec![ident("Foo")])]),
        ])
    );
    assert_eq!(
        parse_type(b"*const Foo").unwrap(),
        TokenStream(vec![ptr("const"), txt(" "), ty(vec![ident("Foo")])])
    );
    assert_eq!(
        parse_type(b"*mut Foo").unwrap(),
        TokenStream(vec![ptr("mut"), txt(" "), ty(vec![ident("Foo")])])
    );
}

#[test]
fn tuples_and_variadic() {
    assert_eq!(
        parse_type(b"(Foo, &Bar)").unwrap(),
        TokenStream(vec![
            prim(Primitive::TupleStart),
            nested(vec![
                ty(vec![ident("Foo")]),
                txt(", "),
                ty(vec![rf(""), ty(vec![ident("Bar")])]),
            ]),
            prim(Primitive::TupleEnd),
        ])
    );
    assert_eq!(
        parse_type(b"(Foo, ...)").unwrap(),
        TokenStream(vec![
            prim(Primitive::TupleStart),
            nested(vec![ty(vec![ident("Foo")]), txt(", ...")]),
            prim(Primitive::TupleEnd),
        ])
    );
}

#[test]
fn range_shapes() {
    assert_eq!(
        parse_type(b"usize..=usize").unwrap(),
        TokenStream(vec![
            ty(vec![named("usize")]),
            Token::Range(RangeToken::RangeInclusive),
            ty(vec![named("usize")]),
        ])
    );
    assert_eq!(
        parse_type(b"     .. usize").unwrap(),
        TokenStream(vec![
            txt("     "),
            Token::Range(RangeToken::RangeTo),
            txt(" "),
            ty(vec![named("usize")]),
        ])
    );
    assert_eq!(
        parse_type(b"     ..=usize").unwrap(),
        TokenStream(vec![
            txt("     "),
            Token::Range(RangeToken::RangeToInclusive),
            ty(vec![named("usize")]),
        ])
    );
    assert_eq!(
        parse_type(b"usize..      ").unwrap(),
        TokenStream(vec![
            ty(vec![named("usize")]),
            Token::Range(RangeToken::RangeFrom),
            txt("      "),
        ])
    );
    assert_eq!(
        parse_type(b"     ..      ").unwrap(),
        TokenStream(vec![
            txt("     "),
            Token::Range(RangeToken::RangeFull),
            txt("      "),
        ])
    );
}

#[test]
fn function_types() {
    assert_eq!(
        parse_type(b"() -> Foo").unwrap(),
        TokenStream(vec![txt("("), txt(") -> "), ty(vec![ident("Foo")])])
    );
    assert_eq!(
        parse_type(b"(Iterator<Item = T>) -> Result<(), T>").unwrap(),
        TokenStream(vec![
            txt("("),
            nested(vec![ty(vec![
                ident("Iterator"),
                txt("<"),
                Token::AssocType(b"Item".to_vec()),
                txt(" = "),
                ty(vec![ident("T")]),
                txt(">"),
            ])]),
            txt(") -> "),
            ty(vec![
                ident("Result"),
                txt("<"),
                ty(vec![prim(Primitive::Unit)]),
                txt(", "),
                ty(vec![ident("T")]),
                txt(">"),
            ]),
        ])
    );
}

#[test]
fn bound_lists() {
    assert_eq!(
        parse_type(b"Iterator<Item = T> + Clone").unwrap(),
        TokenStream(vec![
            ty(vec![
                ident("Iterator"),
                txt("<"),
                Token::AssocType(b"Item".to_vec()),
                txt(" = "),
                ty(vec![ident("T")]),
                txt(">"),
            ]),
            txt(" + "),
            ty(vec![ident("Clone")]),
        ])
    );
}

#[test]
fn round_trips_exactly() {
    assert_round_trip("Foo");
    assert_round_trip("()");
    assert_round_trip("&mut 'a Foo");
    assert_round_trip("usize.. usize");
    assert_round_trip("     ..=usize");
    assert_round_trip("(Foo | &Bar<T> | (Baz) -> bool)");
    assert_round_trip("(Foo, &(Bar, &mut 'a [Baz])) -> T");
    assert_round_trip("(Iterator<Item = T>) -> Result<(), T>");
    assert_round_trip("Box<dyn Foo>");
    assert_round_trip("( Foo ,  Bar )");
    assert_round_trip("*const [Foo]");
    assert_round_trip("(Foo, ...)");
}

#[test]
fn classifies_scalar_names() {
    for name in [
        "bool", "char", "str", "i8", "i16", "i32", "i64", "i128", "isize", "u8", "u16", "u32",
        "u64", "u128", "usize",
    ] {
        assert!(sigtok::is_primitive(name.as_bytes()), "{name}");
        let ts = parse_type(name.as_bytes()).unwrap();
        assert_eq!(ts, TokenStream(vec![named(name)]), "{name}");
    }
    assert!(!sigtok::is_primitive(b"Foo"));
    assert!(!sigtok::is_primitive(b"usize2"));
    assert!(!sigtok::is_primitive(b"Usize"));
    assert_eq!(
        parse_type(b"Foo").unwrap(),
        TokenStream(vec![ident("Foo")])
    );
}
