use sigtok::parse_constraints;
use sigtok::parse_impl;
use sigtok::parse_trait_impl;
use sigtok::ParsedItem;
use sigtok::Primitive;
use sigtok::Token;
use sigtok::TokenStream;

fn txt(s: &str) -> Token {
    Token::Text(s.as_bytes().to_vec())
}

fn ident(s: &str) -> Token {
    Token::Identifier(s.as_bytes().to_vec())
}

fn assoc(s: &str) -> Token {
    Token::AssocType(s.as_bytes().to_vec())
}

fn ty(v: Vec<Token>) -> Token {
    Token::Type(TokenStream(v))
}

fn nested(v: Vec<Token>) -> Token {
    Token::Nested(TokenStream(v))
}

fn named(s: &str) -> Token {
    Token::Primitive(Primitive::Named(s.as_bytes().to_vec()))
}

#[test]
fn constraints_single() {
    let ts = parse_constraints(b"where B: Default + Extend<T>").unwrap();
    assert_eq!(
        ts,
        TokenStream(vec![
            Token::Where,
            txt(" "),
            ty(vec![ident("B")]),
            txt(": "),
            ty(vec![ident("Default")]),
            txt(" + "),
            ty(vec![ident("Extend"), txt("<"), ty(vec![ident("T")]), txt(">")]),
        ])
    );
}

#[test]
fn constraints_several() {
    let ts = parse_constraints(b"where S: Default + Clone, Tz::Offset: Display").unwrap();
    assert_eq!(
        ts,
        TokenStream(vec![
            Token::Where,
            txt(" "),
            ty(vec![ident("S")]),
            txt(": "),
            ty(vec![ident("Default")]),
            txt(" + "),
            ty(vec![ident("Clone")]),
            txt(", "),
            ty(vec![ty(vec![ident("Tz")]), txt("::"), assoc("Offset")]),
            txt(": "),
            ty(vec![ident("Display")]),
        ])
    );
}

#[test]
fn constraints_reject_missing_keyword_or_rest() {
    assert!(parse_constraints(b"S: Default").is_err());
    assert!(parse_constraints(b"where S").is_err());
    assert!(parse_constraints(b"where S: Default extra").is_err());
}

#[test]
fn impl_header_plain() {
    let ts = parse_impl(b"Foo<T>").unwrap();
    assert_eq!(
        ts,
        TokenStream(vec![ty(vec![
            ident("Foo"),
            txt("<"),
            ty(vec![ident("T")]),
            txt(">"),
        ])])
    );
}

#[test]
fn impl_header_with_bindings() {
    let expected = TokenStream(vec![
        ty(vec![ident("Foo"), txt("<"), ty(vec![ident("T")]), txt(">")]),
        txt(" => "),
        assoc("Item"),
        txt(" = "),
        ty(vec![ident("T")]),
    ]);
    assert_eq!(parse_impl(b"Foo<T> => Item = T").unwrap(), expected);
    assert_eq!(parse_trait_impl(b"Foo<T> => Item = T").unwrap(), expected);
}

#[test]
fn impl_header_rejects_trailing() {
    assert!(parse_impl(b"Foo =>").is_err());
    assert!(parse_impl(b"Foo extra").is_err());
}

#[test]
fn signature_with_receiver() {
    let item = ParsedItem::parse(b"len() -> usize").unwrap();
    assert!(item.takes_self);
    assert_eq!(item.name, b"len".to_vec());
    assert_eq!(
        item.tokens,
        TokenStream(vec![txt("("), txt(") "), txt("-> "), ty(vec![named("usize")])])
    );
}

#[test]
fn signature_without_receiver() {
    let item = ParsedItem::parse(b"::new(T) -> Self").unwrap();
    assert!(!item.takes_self);
    assert_eq!(item.name, b"new".to_vec());
    assert_eq!(
        item.tokens,
        TokenStream(vec![
            txt("("),
            nested(vec![ty(vec![ident("T")])]),
            txt(") "),
            txt("-> "),
            ty(vec![ident("Self")]),
        ])
    );
}

#[test]
fn signature_with_where_clause() {
    let item = ParsedItem::parse(b"collect(S, T) -> S where S: Default").unwrap();
    assert!(item.takes_self);
    assert_eq!(item.name, b"collect".to_vec());
    assert_eq!(
        item.tokens,
        TokenStream(vec![
            txt("("),
            nested(vec![ty(vec![ident("S")]), txt(", "), ty(vec![ident("T")])]),
            txt(") "),
            txt("-> "),
            ty(vec![ident("S")]),
            txt(" "),
            Token::Where,
            txt(" "),
            ty(vec![ident("S")]),
            txt(": "),
            ty(vec![ident("Default")]),
        ])
    );
}

#[test]
fn signature_rejections() {
    assert!(ParsedItem::parse(b"no_parens").is_err());
    assert!(ParsedItem::parse(b"open(x").is_err());
    assert!(ParsedItem::parse(b"(x)").is_err());
    assert!(ParsedItem::parse(b"f(x) trailing").is_err());
}
