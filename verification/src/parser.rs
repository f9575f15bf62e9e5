//! The executable recursive-descent parser. Every function is proved to
//! return exactly what the corresponding grammar rule describes, to keep
//! the cursor inside the input, and — on success — to produce tokens
//! whose rendered text is precisely the consumed slice of the input.
use vstd::prelude::*;
use vstd::slice::slice_subrange;
use vstd::slice::slice_to_vec;

use crate::grammar;
use crate::grammar::is_ident_byte;
use crate::grammar::is_letter;
use crate::grammar::is_space;
use crate::grammar::kw2;
use crate::grammar::kw3;
use crate::grammar::kw4;
use crate::grammar::kw5;
use crate::grammar::m1;
use crate::grammar::m2;
use crate::grammar::m3;
use crate::grammar::m4;
use crate::grammar::m5;
use crate::grammar::spec_is_primitive;
use crate::grammar::APOS;
use crate::grammar::COLON;
use crate::grammar::COMMA;
use crate::grammar::DASH;
use crate::grammar::GT_B;
use crate::grammar::LT_B;
use crate::grammar::PIPE;
use crate::grammar::PLUS;
use crate::token::lemma_stream_text_concat;
use crate::token::lemma_stream_text_one;
use crate::token::lemma_subrange_concat;
use crate::token::lemma_vec_deep_concat;
use crate::token::lemma_vec_deep_len;
use crate::token::lemma_vec_deep_one;
use crate::token::stream_text;
use crate::token::token_text;
use crate::token::vec_deep;
use crate::token::Primitive;
use crate::token::RangeToken;
use crate::token::SpecToken;
use crate::token::Token;
use crate::token::TokenStream;
use crate::token::AMP;
use crate::token::DOT;
use crate::token::EQ_B;
use crate::token::LBRACK;
use crate::token::LPAREN;
use crate::token::RBRACK;
use crate::token::RPAREN;
use crate::token::STAR;

verus! {

/// What a token-list rule's executable form guarantees: the grammar rule
/// yields exactly the returned tokens and cursor, the cursor moved and
/// stayed in bounds, and the tokens render to the consumed slice.
pub open spec fn list_post(
    spec_r: Option<(Seq<SpecToken>, int)>,
    s: Seq<u8>,
    pos: int,
    r: Option<(Vec<Token>, usize)>,
) -> bool {
    match r {
        Some((toks, p)) => {
            &&& spec_r == Some((vec_deep(toks@), p as int))
            &&& pos < p as int <= s.len()
            &&& stream_text(vec_deep(toks@)) == s.subrange(pos, p as int)
        },
        None => spec_r is None,
    }
}

/// The same for rules that always succeed (and may consume nothing).
pub open spec fn total_post(
    spec_r: (Seq<SpecToken>, int),
    s: Seq<u8>,
    pos: int,
    r: (Vec<Token>, usize),
) -> bool {
    &&& spec_r == (vec_deep(r.0@), r.1 as int)
    &&& pos <= r.1 as int <= s.len()
    &&& stream_text(vec_deep(r.0@)) == s.subrange(pos, r.1 as int)
}

/// The same for the rule that yields one token.
pub open spec fn tok_post(
    spec_r: Option<(SpecToken, int)>,
    s: Seq<u8>,
    pos: int,
    r: Option<(Token, usize)>,
) -> bool {
    match r {
        Some((t, p)) => {
            &&& spec_r == Some((t.deep(), p as int))
            &&& pos < p as int <= s.len()
            &&& token_text(t.deep()) == s.subrange(pos, p as int)
        },
        None => spec_r is None,
    }
}

fn is_space_x(b: u8) -> (r: bool)
    ensures
        r == is_space(b),
{
    b == 32 || (9 <= b && b <= 13)
}

fn is_ident_byte_x(b: u8) -> (r: bool)
    ensures
        r == is_ident_byte(b),
{
    (65 <= b && b <= 90) || (97 <= b && b <= 122) || (48 <= b && b <= 57) || b == 95
}

fn is_letter_x(b: u8) -> (r: bool)
    ensures
        r == is_letter(b),
{
    (65 <= b && b <= 90) || (97 <= b && b <= 122)
}

fn skip_spaces_x(s: &[u8], pos: usize) -> (p: usize)
    requires
        pos <= s.len(),
    ensures
        p as int == grammar::skip_spaces(s@, pos as int),
        pos <= p <= s.len(),
{
    let mut p = pos;
    while p < s.len() && is_space_x(s[p])
        invariant
            pos <= p <= s.len(),
            grammar::skip_spaces(s@, pos as int) == grammar::skip_spaces(s@, p as int),
        decreases s.len() - p,
    {
        p = p + 1;
    }
    p
}

fn scan_ident_end_x(s: &[u8], pos: usize) -> (p: usize)
    requires
        pos <= s.len(),
    ensures
        p as int == grammar::scan_ident_end(s@, pos as int),
        pos <= p <= s.len(),
{
    let mut p = pos;
    while p < s.len() && is_ident_byte_x(s[p])
        invariant
            pos <= p <= s.len(),
            grammar::scan_ident_end(s@, pos as int) == grammar::scan_ident_end(s@, p as int),
        decreases s.len() - p,
    {
        p = p + 1;
    }
    p
}

fn scan_letters_end_x(s: &[u8], pos: usize) -> (p: usize)
    requires
        pos <= s.len(),
    ensures
        p as int == grammar::scan_letters_end(s@, pos as int),
        pos <= p <= s.len(),
{
    let mut p = pos;
    while p < s.len() && is_letter_x(s[p])
        invariant
            pos <= p <= s.len(),
            grammar::scan_letters_end(s@, pos as int) == grammar::scan_letters_end(s@, p as int),
        decreases s.len() - p,
    {
        p = p + 1;
    }
    p
}

fn scan_lifetime_x(s: &[u8], pos: usize) -> (r: Option<usize>)
    requires
        pos <= s.len(),
    ensures
        match r {
            Some(e) => grammar::scan_lifetime(s@, pos as int) == Some(e as int) && pos < e
                <= s.len(),
            None => grammar::scan_lifetime(s@, pos as int) is None,
        },
{
    if pos < s.len() && s[pos] == APOS {
        let e = scan_letters_end_x(s, pos + 1);
        if e > pos + 1 {
            Some(e)
        } else {
            None
        }
    } else {
        None
    }
}

fn m1x(s: &[u8], pos: usize, a: u8) -> (r: bool)
    requires
        pos <= s.len(),
    ensures
        r == m1(s@, pos as int, a),
{
    pos < s.len() && s[pos] == a
}

fn m2x(s: &[u8], pos: usize, a: u8, b: u8) -> (r: bool)
    requires
        pos <= s.len(),
    ensures
        r == m2(s@, pos as int, a, b),
{
    pos < s.len() && s.len() - pos >= 2 && s[pos] == a && s[pos + 1] == b
}

fn m3x(s: &[u8], pos: usize, a: u8, b: u8, c: u8) -> (r: bool)
    requires
        pos <= s.len(),
    ensures
        r == m3(s@, pos as int, a, b, c),
{
    pos < s.len() && s.len() - pos >= 3 && s[pos] == a && s[pos + 1] == b && s[pos + 2] == c
}

fn m4x(s: &[u8], pos: usize, a: u8, b: u8, c: u8, d: u8) -> (r: bool)
    requires
        pos <= s.len(),
    ensures
        r == m4(s@, pos as int, a, b, c, d),
{
    pos < s.len() && s.len() - pos >= 4 && s[pos] == a && s[pos + 1] == b && s[pos + 2] == c && s[pos
        + 3] == d
}

fn m5x(s: &[u8], pos: usize, a: u8, b: u8, c: u8, d: u8, e: u8) -> (r: bool)
    requires
        pos <= s.len(),
    ensures
        r == m5(s@, pos as int, a, b, c, d, e),
{
    pos < s.len() && s.len() - pos >= 5 && s[pos] == a && s[pos + 1] == b && s[pos + 2] == c && s[pos
        + 3] == d && s[pos + 4] == e
}

fn copy_range(s: &[u8], a: usize, b: usize) -> (r: Vec<u8>)
    requires
        a <= b <= s.len(),
    ensures
        r@ == s@.subrange(a as int, b as int),
{
    slice_to_vec(slice_subrange(s, a, b))
}

/// An empty range of the input renders the empty token sequence.
proof fn lemma_empty_at(s: Seq<u8>, pos: int)
    requires
        0 <= pos <= s.len(),
    ensures
        s.subrange(pos, pos) == Seq::<u8>::empty(),
        vec_deep(Seq::<Token>::empty()) == Seq::<SpecToken>::empty(),
        stream_text(Seq::<SpecToken>::empty()) == Seq::<u8>::empty(),
{
    assert(s.subrange(pos, pos) =~= Seq::<u8>::empty());
}

/// One-token vector, with its value and rendered text.
fn one(t: Token) -> (r: Vec<Token>)
    ensures
        r@ == seq![t],
        vec_deep(r@) == seq![t.deep()],
        stream_text(vec_deep(r@)) == token_text(t.deep()),
{
    proof {
        lemma_vec_deep_one(t);
        lemma_stream_text_one(t.deep());
    }
    let mut v: Vec<Token> = Vec::new();
    v.push(t);
    v
}

/// Concatenation of two token vectors: values and rendered text add up.
fn cat(a: Vec<Token>, b: Vec<Token>) -> (r: Vec<Token>)
    ensures
        r@ == a@ + b@,
        vec_deep(r@) == vec_deep(a@) + vec_deep(b@),
        stream_text(vec_deep(r@)) == stream_text(vec_deep(a@)) + stream_text(vec_deep(b@)),
{
    proof {
        lemma_vec_deep_concat(a@, b@);
        lemma_stream_text_concat(vec_deep(a@), vec_deep(b@));
    }
    let mut a = a;
    let mut b = b;
    a.append(&mut b);
    a
}

fn kw2x(n: &[u8], a: u8, b: u8) -> (r: bool)
    ensures
        r == kw2(n@, a, b),
{
    n.len() == 2 && n[0] == a && n[1] == b
}

fn kw3x(n: &[u8], a: u8, b: u8, c: u8) -> (r: bool)
    ensures
        r == kw3(n@, a, b, c),
{
    n.len() == 3 && n[0] == a && n[1] == b && n[2] == c
}

fn kw4x(n: &[u8], a: u8, b: u8, c: u8, d: u8) -> (r: bool)
    ensures
        r == kw4(n@, a, b, c, d),
{
    n.len() == 4 && n[0] == a && n[1] == b && n[2] == c && n[3] == d
}

fn kw5x(n: &[u8], a: u8, b: u8, c: u8, d: u8, e: u8) -> (r: bool)
    ensures
        r == kw5(n@, a, b, c, d, e),
{
    n.len() == 5 && n[0] == a && n[1] == b && n[2] == c && n[3] == d && n[4] == e
}

/// Whether a name is one of the fifteen scalar type names.
pub fn is_primitive(n: &[u8]) -> (r: bool)
    ensures
        r == spec_is_primitive(n@),
{
    kw4x(n, 98, 111, 111, 108) || kw4x(n, 99, 104, 97, 114) || kw3x(n, 115, 116, 114) || int_kw_x(
        n,
        105,
    ) || int_kw_x(n, 117)
}

fn int_kw_x(n: &[u8], c: u8) -> (r: bool)
    ensures
        r == grammar::int_kw(n@, c),
{
    kw2x(n, c, 56) || kw3x(n, c, 49, 54) || kw3x(n, c, 51, 50) || kw3x(n, c, 54, 52) || kw4x(
        n,
        c,
        49,
        50,
        56,
    ) || kw5x(n, c, 115, 105, 122, 101)
}

/// Lex a one-byte literal: optional whitespace, the byte, optional
/// whitespace, as one `Text` token.
fn lex1x(s: &[u8], pos: usize, a: u8) -> (r: Option<(Token, usize)>)
    requires
        pos <= s.len(),
    ensures
        match r {
            Some((t, p)) => {
                &&& grammar::lex1(s@, pos as int, a) == Some((t.deep(), p as int))
                &&& pos < p <= s.len()
                &&& token_text(t.deep()) == s@.subrange(pos as int, p as int)
            },
            None => grammar::lex1(s@, pos as int, a) is None,
        },
{
    let p1 = skip_spaces_x(s, pos);
    if m1x(s, p1, a) {
        let p2 = skip_spaces_x(s, p1 + 1);
        Some((Token::Text(copy_range(s, pos, p2)), p2))
    } else {
        None
    }
}

/// Lex a two-byte literal, as `lex1x`.
fn lex2x(s: &[u8], pos: usize, a: u8, b: u8) -> (r: Option<(Token, usize)>)
    requires
        pos <= s.len(),
    ensures
        match r {
            Some((t, p)) => {
                &&& grammar::lex2(s@, pos as int, a, b) == Some((t.deep(), p as int))
                &&& pos < p <= s.len()
                &&& token_text(t.deep()) == s@.subrange(pos as int, p as int)
            },
            None => grammar::lex2(s@, pos as int, a, b) is None,
        },
{
    let p1 = skip_spaces_x(s, pos);
    if m2x(s, p1, a, b) {
        let p2 = skip_spaces_x(s, p1 + 2);
        Some((Token::Text(copy_range(s, pos, p2)), p2))
    } else {
        None
    }
}

/// Lex a four-byte literal, as `lex1x`.
fn lex4x(s: &[u8], pos: usize, a: u8, b: u8, c: u8, d: u8) -> (r: Option<(Token, usize)>)
    requires
        pos <= s.len(),
    ensures
        match r {
            Some((t, p)) => {
                &&& grammar::lex4(s@, pos as int, a, b, c, d) == Some((t.deep(), p as int))
                &&& pos < p <= s.len()
                &&& token_text(t.deep()) == s@.subrange(pos as int, p as int)
            },
            None => grammar::lex4(s@, pos as int, a, b, c, d) is None,
        },
{
    let p1 = skip_spaces_x(s, pos);
    if m4x(s, p1, a, b, c, d) {
        let p2 = skip_spaces_x(s, p1 + 4);
        Some((Token::Text(copy_range(s, pos, p2)), p2))
    } else {
        None
    }
}

/// Normalise a single-type production: a lone `Type` token is kept as it
/// is, anything else is wrapped as one `Type` token.
fn to_type_token(toks: Vec<Token>) -> (r: Token)
    ensures
        r.deep() == grammar::to_type(vec_deep(toks@)),
        token_text(r.deep()) == stream_text(vec_deep(toks@)),
{
    let ghost orig = toks@;
    let mut toks = toks;
    if toks.len() == 1 {
        proof {
            assert(orig =~= seq![orig[0]]);
            lemma_vec_deep_one(orig[0]);
            lemma_stream_text_one(orig[0].deep());
        }
        let t = toks.pop().unwrap();
        match t {
            Token::Type(inner) => {
                return Token::Type(inner);
            },
            other => {
                let ghost o = other;
                toks.push(other);
                proof {
                    assert(toks@ =~= orig);
                    assert(o == orig[0]);
                    assert(!(o.deep() is Type));
                    assert(vec_deep(orig) == seq![orig[0].deep()]);
                    assert(!(vec_deep(orig)[0] is Type));
                    assert(grammar::to_type(vec_deep(orig)) == SpecToken::Type(vec_deep(orig)));
                }
            },
        }
    }
    proof {
        lemma_vec_deep_len(toks@);
    }
    Token::Type(TokenStream(toks))
}

/// Whitespace at `pos`, as zero or one `Text` token.
fn maybe_spaces_x(s: &[u8], pos: usize) -> (r: (Vec<Token>, usize))
    requires
        pos <= s.len(),
    ensures
        total_post(grammar::maybe_spaces(s@, pos as int), s@, pos as int, r),
{
    let p = skip_spaces_x(s, pos);
    if p == pos {
        proof {
            assert(s@.subrange(pos as int, pos as int) =~= Seq::<u8>::empty());
        }
        (Vec::new(), pos)
    } else {
        let t = Token::Text(copy_range(s, pos, p));
        proof {
            lemma_vec_deep_one(t);
            lemma_stream_text_one(t.deep());
        }
        (one(t), p)
    }
}

/// A type expression: one or more single types separated by `|`.
fn type_like(s: &[u8], pos: usize) -> (r: Option<(Vec<Token>, usize)>)
    requires
        pos <= s.len(),
    ensures
        list_post(grammar::type_like(s@, pos as int), s@, pos as int, r),
    decreases s@.len() - pos, 5int,
{
    match single_type_like(s, pos) {
        Some((first, p1)) => {
            let (rest, p2) = type_like_rest(s, p1);
            proof {
                lemma_subrange_concat(s@, pos as int, p1 as int, p2 as int);
            }
            Some((cat(first, rest), p2))
        },
        None => None,
    }
}

/// Zero or more further `|`-separated single types.
fn type_like_rest(s: &[u8], pos: usize) -> (r: (Vec<Token>, usize))
    requires
        pos <= s.len(),
    ensures
        total_post(grammar::type_like_rest(s@, pos as int), s@, pos as int, r),
    decreases s@.len() - pos, 0int,
{
    match lex1x(s, pos, PIPE) {
        Some((sep, p1)) => match single_type_like(s, p1) {
            Some((item, p2)) => {
                let (rest, p3) = type_like_rest(s, p2);
                proof {
                    lemma_subrange_concat(s@, pos as int, p1 as int, p2 as int);
                    lemma_subrange_concat(s@, pos as int, p2 as int, p3 as int);
                }
                (cat(cat(one(sep), item), rest), p3)
            },
            None => {
                proof {
                    lemma_empty_at(s@, pos as int);
                }
                (Vec::new(), pos)
            },
        },
        None => {
            proof {
                lemma_empty_at(s@, pos as int);
            }
            (Vec::new(), pos)
        },
    }
}

/// A single type, as a one-token vector.
fn single_type_like(s: &[u8], pos: usize) -> (r: Option<(Vec<Token>, usize)>)
    requires
        pos <= s.len(),
    ensures
        list_post(grammar::single_type_like(s@, pos as int), s@, pos as int, r),
    decreases s@.len() - pos, 4int,
{
    match single_type_like_token(s, pos) {
        Some((t, p)) => Some((one(t), p)),
        None => None,
    }
}

/// A single type: the alternatives in strict priority order, normalised
/// to one `Type` token.
fn single_type_like_token(s: &[u8], pos: usize) -> (r: Option<(Token, usize)>)
    requires
        pos <= s.len(),
    ensures
        tok_post(grammar::single_type_like_token(s@, pos as int), s@, pos as int, r),
    decreases s@.len() - pos, 3int,
{
    if let Some((toks, p)) = ref_type(s, pos) {
        return Some((to_type_token(toks), p));
    }
    if let Some((toks, p)) = ptr_type(s, pos) {
        return Some((to_type_token(toks), p));
    }
    if let Some((toks, p)) = slice_type(s, pos) {
        return Some((to_type_token(toks), p));
    }
    if let Some((toks, p)) = fn_type(s, pos) {
        return Some((to_type_token(toks), p));
    }
    if let Some((toks, p)) = tuple_type(s, pos) {
        return Some((to_type_token(toks), p));
    }
    if let Some((toks, p)) = range_type(s, pos) {
        return Some((to_type_token(toks), p));
    }
    if let Some((toks, p)) = named_type(s, pos) {
        return Some((to_type_token(toks), p));
    }
    None
}

/// A reference: `&`, optional `mut`, optional lifetime, then a single
/// type; everything after the `&` up to the type is the marker's prefix.
fn ref_type(s: &[u8], pos: usize) -> (r: Option<(Vec<Token>, usize)>)
    requires
        pos <= s.len(),
    ensures
        list_post(grammar::ref_type(s@, pos as int), s@, pos as int, r),
    decreases s@.len() - pos, 2int,
{
    if !m1x(s, pos, AMP) {
        return None;
    }
    let p1 = pos + 1;
    let p2 = if m3x(s, p1, 109, 117, 116) {
        p1 + 3
    } else {
        p1
    };
    let q = skip_spaces_x(s, p2);
    let p3 = match scan_lifetime_x(s, q) {
        Some(e) => e,
        None => p2,
    };
    let prefix = Token::Primitive(Primitive::Ref(copy_range(s, p1, p3)));
    let (sp, p4) = maybe_spaces_x(s, p3);
    match single_type_like(s, p4) {
        Some((t, p5)) => {
            proof {
                assert(token_text(prefix.deep()) =~= s@.subrange(pos as int, p3 as int));
                lemma_subrange_concat(s@, pos as int, p3 as int, p4 as int);
                lemma_subrange_concat(s@, pos as int, p4 as int, p5 as int);
            }
            Some((cat(cat(one(prefix), sp), t), p5))
        },
        None => None,
    }
}

/// A raw pointer: `*` followed by exactly `const` or `mut`, then a
/// single type.
fn ptr_type(s: &[u8], pos: usize) -> (r: Option<(Vec<Token>, usize)>)
    requires
        pos <= s.len(),
    ensures
        list_post(grammar::ptr_type(s@, pos as int), s@, pos as int, r),
    decreases s@.len() - pos, 2int,
{
    if !m1x(s, pos, STAR) {
        return None;
    }
    if m5x(s, pos + 1, 99, 111, 110, 115, 116) {
        ptr_tail(s, pos, pos + 6)
    } else if m3x(s, pos + 1, 109, 117, 116) {
        ptr_tail(s, pos, pos + 4)
    } else {
        None
    }
}

/// The rest of a raw pointer once its prefix is known to end at `p2`.
fn ptr_tail(s: &[u8], pos: usize, p2: usize) -> (r: Option<(Vec<Token>, usize)>)
    requires
        pos < p2 <= s.len(),
        s@[pos as int] == STAR,
    ensures
        list_post(grammar::ptr_tail(s@, pos as int, p2 as int), s@, pos as int, r),
    decreases s@.len() - pos, 1int,
{
    let prefix = Token::Primitive(Primitive::Ptr(copy_range(s, pos + 1, p2)));
    let (sp, p3) = maybe_spaces_x(s, p2);
    match single_type_like(s, p3) {
        Some((t, p4)) => {
            proof {
                assert(token_text(prefix.deep()) =~= s@.subrange(pos as int, p2 as int));
                lemma_subrange_concat(s@, pos as int, p2 as int, p3 as int);
                lemma_subrange_concat(s@, pos as int, p3 as int, p4 as int);
            }
            Some((cat(cat(one(prefix), sp), t), p4))
        },
        None => None,
    }
}

/// A slice: `[`, a type expression, `]`.
fn slice_type(s: &[u8], pos: usize) -> (r: Option<(Vec<Token>, usize)>)
    requires
        pos <= s.len(),
    ensures
        list_post(grammar::slice_type(s@, pos as int), s@, pos as int, r),
    decreases s@.len() - pos, 2int,
{
    if !m1x(s, pos, LBRACK) {
        return None;
    }
    let (sp1, p1) = maybe_spaces_x(s, pos + 1);
    match type_like(s, p1) {
        Some((ts, p2)) => {
            let (sp2, p3) = maybe_spaces_x(s, p2);
            if m1x(s, p3, RBRACK) {
                let start = Token::Primitive(Primitive::SliceStart);
                let close = Token::Primitive(Primitive::SliceEnd);
                proof {
                    assert(token_text(start.deep()) =~= s@.subrange(pos as int, pos + 1));
                    assert(token_text(close.deep()) =~= s@.subrange(p3 as int, p3 + 1));
                    lemma_subrange_concat(s@, pos as int, pos + 1, p1 as int);
                    lemma_subrange_concat(s@, pos as int, p1 as int, p2 as int);
                    lemma_subrange_concat(s@, pos as int, p2 as int, p3 as int);
                    lemma_subrange_concat(s@, pos as int, p3 as int, p3 + 1);
                }
                Some((cat(cat(cat(cat(one(start), sp1), ts), sp2), one(close)), p3 + 1))
            } else {
                None
            }
        },
        None => None,
    }
}

/// A function type: `(`, a parameter list, `) ->`, a type expression.
fn fn_type(s: &[u8], pos: usize) -> (r: Option<(Vec<Token>, usize)>)
    requires
        pos <= s.len(),
    ensures
        list_post(grammar::fn_type(s@, pos as int), s@, pos as int, r),
    decreases s@.len() - pos, 2int,
{
    if !m1x(s, pos, LPAREN) {
        return None;
    }
    let p1 = skip_spaces_x(s, pos + 1);
    let t1 = Token::Text(copy_range(s, pos, p1));
    let (ltoks, p2) = nested_type_like_list(s, p1);
    let q1 = skip_spaces_x(s, p2);
    if !m1x(s, q1, RPAREN) {
        return None;
    }
    let q2 = skip_spaces_x(s, q1 + 1);
    if !m2x(s, q2, DASH, GT_B) {
        return None;
    }
    let q3 = skip_spaces_x(s, q2 + 2);
    let t2 = Token::Text(copy_range(s, p2, q3));
    match type_like(s, q3) {
        Some((rt, p4)) => {
            proof {
                lemma_subrange_concat(s@, pos as int, p1 as int, p2 as int);
                lemma_subrange_concat(s@, pos as int, p2 as int, q3 as int);
                lemma_subrange_concat(s@, pos as int, q3 as int, p4 as int);
            }
            Some((cat(cat(cat(one(t1), ltoks), one(t2)), rt), p4))
        },
        None => None,
    }
}

/// A tuple-like production: the empty-tuple literal, or `(`, a variadic
/// or comma-separated inside, `)`.
fn tuple_type(s: &[u8], pos: usize) -> (r: Option<(Vec<Token>, usize)>)
    requires
        pos <= s.len(),
    ensures
        list_post(grammar::tuple_type(s@, pos as int), s@, pos as int, r),
    decreases s@.len() - pos, 2int,
{
    let (sp0, q0) = maybe_spaces_x(s, pos);
    if m2x(s, q0, LPAREN, RPAREN) {
        let (sp1, q1) = maybe_spaces_x(s, q0 + 2);
        let unit = Token::Primitive(Primitive::Unit);
        proof {
            assert(token_text(unit.deep()) =~= s@.subrange(q0 as int, q0 + 2));
            lemma_subrange_concat(s@, pos as int, q0 as int, q0 + 2);
            lemma_subrange_concat(s@, pos as int, q0 + 2, q1 as int);
        }
        Some((cat(cat(sp0, one(unit)), sp1), q1))
    } else if m1x(s, pos, LPAREN) {
        let (sp1, p1) = maybe_spaces_x(s, pos + 1);
        match tuple_variadic(s, p1) {
            Some((inner, p2)) => {
                proof {
                    lemma_subrange_concat(s@, pos + 1, p1 as int, p2 as int);
                }
                tuple_close(s, pos, sp1, inner, p2)
            },
            None => {
                let (inner, p2) = nested_type_like_list(s, p1);
                proof {
                    lemma_subrange_concat(s@, pos + 1, p1 as int, p2 as int);
                }
                tuple_close(s, pos, sp1, inner, p2)
            },
        }
    } else {
        None
    }
}

/// The variadic inside of a tuple: a type expression, `,`, `...`.
fn tuple_variadic(s: &[u8], pos: usize) -> (r: Option<(Vec<Token>, usize)>)
    requires
        pos <= s.len(),
    ensures
        list_post(grammar::tuple_variadic(s@, pos as int), s@, pos as int, r),
    decreases s@.len() - pos, 6int,
{
    match type_like(s, pos) {
        Some((ts, p2)) => {
            let q1 = skip_spaces_x(s, p2);
            if !m1x(s, q1, COMMA) {
                return None;
            }
            let q2 = skip_spaces_x(s, q1 + 1);
            if !m3x(s, q2, DOT, DOT, DOT) {
                return None;
            }
            let q3 = skip_spaces_x(s, q2 + 3);
            let txt = Token::Text(copy_range(s, p2, q3));
            let nested = Token::Nested(TokenStream(cat(ts, one(txt))));
            proof {
                lemma_subrange_concat(s@, pos as int, p2 as int, q3 as int);
            }
            Some((one(nested), q3))
        },
        None => None,
    }
}

/// The closing of a tuple: optional whitespace and `)`. The callers hand
/// in the opening position, the whitespace after `(`, and the inside.
fn tuple_close(s: &[u8], pos: usize, sp1: Vec<Token>, inner: Vec<Token>, p2: usize) -> (r: Option<
    (Vec<Token>, usize),
>)
    requires
        pos < s.len(),
        s@[pos as int] == LPAREN,
        pos + 1 <= p2 <= s.len(),
        stream_text(vec_deep(sp1@)) + stream_text(vec_deep(inner@)) == s@.subrange(
            pos + 1,
            p2 as int,
        ),
    ensures
        match r {
            Some((toks, p)) => {
                &&& grammar::tuple_close(s@, vec_deep(sp1@), vec_deep(inner@), p2 as int) == Some(
                    (vec_deep(toks@), p as int),
                )
                &&& pos < p <= s.len()
                &&& stream_text(vec_deep(toks@)) == s@.subrange(pos as int, p as int)
            },
            None => grammar::tuple_close(s@, vec_deep(sp1@), vec_deep(inner@), p2 as int) is None,
        },
{
    let (sp2, p3) = maybe_spaces_x(s, p2);
    if m1x(s, p3, RPAREN) {
        let start = Token::Primitive(Primitive::TupleStart);
        let close = Token::Primitive(Primitive::TupleEnd);
        proof {
            assert(token_text(start.deep()) =~= s@.subrange(pos as int, pos + 1));
            assert(token_text(close.deep()) =~= s@.subrange(p3 as int, p3 + 1));
            lemma_subrange_concat(s@, pos + 1, p2 as int, p3 as int);
            lemma_subrange_concat(s@, pos as int, pos + 1, p3 as int);
            lemma_subrange_concat(s@, pos as int, p3 as int, p3 + 1);
        }
        Some((cat(cat(cat(cat(one(start), sp1), inner), sp2), one(close)), p3 + 1))
    } else {
        None
    }
}

/// A possibly empty comma-separated list of type expressions, grouped as
/// one `Nested` token when not empty.
fn nested_type_like_list(s: &[u8], pos: usize) -> (r: (Vec<Token>, usize))
    requires
        pos <= s.len(),
    ensures
        total_post(grammar::nested_type_like_list(s@, pos as int), s@, pos as int, r),
    decreases s@.len() - pos, 7int,
{
    match type_like(s, pos) {
        Some((t1, p1)) => {
            let (rest, p2) = nested_list_rest(s, p1);
            let nested = Token::Nested(TokenStream(cat(t1, rest)));
            proof {
                lemma_subrange_concat(s@, pos as int, p1 as int, p2 as int);
            }
            (one(nested), p2)
        },
        None => {
            proof {
                lemma_empty_at(s@, pos as int);
            }
            (Vec::new(), pos)
        },
    }
}

/// Zero or more further `,`-separated type expressions.
fn nested_list_rest(s: &[u8], pos: usize) -> (r: (Vec<Token>, usize))
    requires
        pos <= s.len(),
    ensures
        total_post(grammar::nested_list_rest(s@, pos as int), s@, pos as int, r),
    decreases s@.len() - pos, 0int,
{
    match lex1x(s, pos, COMMA) {
        Some((sep, p1)) => match type_like(s, p1) {
            Some((item, p2)) => {
                let (rest, p3) = nested_list_rest(s, p2);
                proof {
                    lemma_subrange_concat(s@, pos as int, p1 as int, p2 as int);
                    lemma_subrange_concat(s@, pos as int, p2 as int, p3 as int);
                }
                (cat(cat(one(sep), item), rest), p3)
            },
            None => {
                proof {
                    lemma_empty_at(s@, pos as int);
                }
                (Vec::new(), pos)
            },
        },
        None => {
            proof {
                lemma_empty_at(s@, pos as int);
            }
            (Vec::new(), pos)
        },
    }
}

fn range_kind_x(has_start: bool, inc: bool, has_end: bool) -> (r: Option<RangeToken>)
    ensures
        r == grammar::range_kind(has_start, inc, has_end),
{
    if !has_start && !inc && !has_end {
        Some(RangeToken::RangeFull)
    } else if !has_start && !inc && has_end {
        Some(RangeToken::RangeTo)
    } else if !has_start && inc && has_end {
        Some(RangeToken::RangeToInclusive)
    } else if has_start && !inc && !has_end {
        Some(RangeToken::RangeFrom)
    } else if has_start && !inc && has_end {
        Some(RangeToken::Range)
    } else if has_start && inc && has_end {
        Some(RangeToken::RangeInclusive)
    } else {
        None
    }
}

/// A range: an optional named type, `..=` or `..`, an optional named
/// type.
fn range_type(s: &[u8], pos: usize) -> (r: Option<(Vec<Token>, usize)>)
    requires
        pos <= s.len(),
    ensures
        list_post(grammar::range_type(s@, pos as int), s@, pos as int, r),
    decreases s@.len() - pos, 2int,
{
    let (start, p1, has_start) = match named_type(s, pos) {
        Some((st, q)) => (st, q, true),
        None => (Vec::new(), pos, false),
    };
    let q = skip_spaces_x(s, p1);
    if m3x(s, q, DOT, DOT, EQ_B) {
        range_tail(s, pos, start, has_start, p1, q, q + 3, true)
    } else if m2x(s, q, DOT, DOT) {
        range_tail(s, pos, start, has_start, p1, q, q + 2, false)
    } else {
        None
    }
}

/// The rest of a range once the operator is known: the whitespace
/// touching the operator becomes separate `Text` tokens.
#[verifier::rlimit(60)]
fn range_tail(
    s: &[u8],
    pos: usize,
    start: Vec<Token>,
    has_start: bool,
    p1: usize,
    q: usize,
    p2: usize,
    inc: bool,
) -> (r: Option<(Vec<Token>, usize)>)
    requires
        pos <= p1 <= q <= p2 <= s.len(),
        q as int == grammar::skip_spaces(s@, p1 as int),
        if inc {
            m3(s@, q as int, DOT, DOT, EQ_B) && p2 == q + 3
        } else {
            m2(s@, q as int, DOT, DOT) && p2 == q + 2
        },
        if has_start {
            grammar::named_type(s@, pos as int) == Some((vec_deep(start@), p1 as int)) && pos < p1
                && stream_text(vec_deep(start@)) == s@.subrange(pos as int, p1 as int)
        } else {
            grammar::named_type(s@, pos as int) is None && p1 == pos && start@ =~= Seq::<
                Token,
            >::empty()
        },
    ensures
        match r {
            Some((toks, p)) => {
                &&& grammar::range_tail(
                    s@,
                    pos as int,
                    vec_deep(start@),
                    has_start,
                    p1 as int,
                    q as int,
                    p2 as int,
                    inc,
                ) == Some((vec_deep(toks@), p as int))
                &&& pos < p <= s.len()
                &&& stream_text(vec_deep(toks@)) == s@.subrange(pos as int, p as int)
            },
            None => grammar::range_tail(
                s@,
                pos as int,
                vec_deep(start@),
                has_start,
                p1 as int,
                q as int,
                p2 as int,
                inc,
            ) is None,
        },
    decreases s@.len() - pos, 1int,
{
    let lead = if q > p1 {
        one(Token::Text(copy_range(s, p1, q)))
    } else {
        proof {
            lemma_empty_at(s@, p1 as int);
        }
        Vec::new()
    };
    let p3 = skip_spaces_x(s, p2);
    let trail = if p3 > p2 {
        one(Token::Text(copy_range(s, p2, p3)))
    } else {
        proof {
            lemma_empty_at(s@, p2 as int);
        }
        Vec::new()
    };
    let (end_toks, p4, has_end) = match named_type(s, p3) {
        Some((et, r2)) => (et, r2, true),
        None => (Vec::new(), p3, false),
    };
    match range_kind_x(has_start, inc, has_end) {
        Some(kind) => {
            let op = Token::Range(kind);
            proof {
                assert(token_text(op.deep()) =~= s@.subrange(q as int, p2 as int));
                if !has_end {
                    lemma_empty_at(s@, p3 as int);
                }
                lemma_subrange_concat(s@, pos as int, p1 as int, q as int);
                lemma_subrange_concat(s@, pos as int, q as int, p2 as int);
                lemma_subrange_concat(s@, pos as int, p2 as int, p3 as int);
                lemma_subrange_concat(s@, pos as int, p3 as int, p4 as int);
            }
            Some((cat(cat(cat(cat(start, lead), one(op)), trail), end_toks), p4))
        },
        None => None,
    }
}

/// A named type: optional `dyn `, a simple named type, `::name`
/// selectors, optional `+` bounds.
fn named_type(s: &[u8], pos: usize) -> (r: Option<(Vec<Token>, usize)>)
    requires
        pos <= s.len(),
    ensures
        list_post(grammar::named_type(s@, pos as int), s@, pos as int, r),
    decreases s@.len() - pos, 1int,
{
    let (dyn_toks, p1) = match lex4x(s, pos, 100, 121, 110, 32) {
        Some((t, q)) => (one(t), q),
        None => {
            proof {
                lemma_empty_at(s@, pos as int);
            }
            (Vec::new(), pos)
        },
    };
    match simple_named_type(s, p1) {
        Some((snt, p2)) => {
            let (assoc, p3) = assoc_items_rest(s, p2);
            let (bnd, p4) = bounds_opt(s, p3);
            proof {
                lemma_subrange_concat(s@, pos as int, p1 as int, p2 as int);
                lemma_subrange_concat(s@, pos as int, p2 as int, p3 as int);
                lemma_subrange_concat(s@, pos as int, p3 as int, p4 as int);
            }
            Some((cat(cat(cat(dyn_toks, snt), assoc), bnd), p4))
        },
        None => None,
    }
}

/// An optional `+`-introduced list of additional bound types.
fn bounds_opt(s: &[u8], pos: usize) -> (r: (Vec<Token>, usize))
    requires
        pos <= s.len(),
    ensures
        total_post(grammar::bounds_opt(s@, pos as int), s@, pos as int, r),
    decreases s@.len() - pos, 1int,
{
    match lex1x(s, pos, PLUS) {
        Some((t, q1)) => match simple_named_type(s, q1) {
            Some((b1, q2)) => {
                let (rest, q3) = bounds_rest(s, q2);
                proof {
                    lemma_subrange_concat(s@, pos as int, q1 as int, q2 as int);
                    lemma_subrange_concat(s@, pos as int, q2 as int, q3 as int);
                }
                (cat(cat(one(t), b1), rest), q3)
            },
            None => {
                proof {
                    lemma_empty_at(s@, pos as int);
                }
                (Vec::new(), pos)
            },
        },
        None => {
            proof {
                lemma_empty_at(s@, pos as int);
            }
            (Vec::new(), pos)
        },
    }
}

/// Zero or more further `+`-separated simple named types.
fn bounds_rest(s: &[u8], pos: usize) -> (r: (Vec<Token>, usize))
    requires
        pos <= s.len(),
    ensures
        total_post(grammar::bounds_rest(s@, pos as int), s@, pos as int, r),
    decreases s@.len() - pos, 0int,
{
    match lex1x(s, pos, PLUS) {
        Some((sep, p1)) => match simple_named_type(s, p1) {
            Some((item, p2)) => {
                let (rest, p3) = bounds_rest(s, p2);
                proof {
                    lemma_subrange_concat(s@, pos as int, p1 as int, p2 as int);
                    lemma_subrange_concat(s@, pos as int, p2 as int, p3 as int);
                }
                (cat(cat(one(sep), item), rest), p3)
            },
            None => {
                proof {
                    lemma_empty_at(s@, pos as int);
                }
                (Vec::new(), pos)
            },
        },
        None => {
            proof {
                lemma_empty_at(s@, pos as int);
            }
            (Vec::new(), pos)
        },
    }
}

/// Zero or more `::name` associated-item selectors.
fn assoc_items_rest(s: &[u8], pos: usize) -> (r: (Vec<Token>, usize))
    requires
        pos <= s.len(),
    ensures
        total_post(grammar::assoc_items_rest(s@, pos as int), s@, pos as int, r),
    decreases s@.len() - pos,
{
    match lex2x(s, pos, COLON, COLON) {
        Some((t, p1)) => {
            let e = scan_ident_end_x(s, p1);
            if e == p1 {
                proof {
                    lemma_empty_at(s@, pos as int);
                }
                return (Vec::new(), pos);
            }
            let at = Token::AssocType(copy_range(s, p1, e));
            let (rest, p2) = assoc_items_rest(s, e);
            proof {
                assert(seq![t.deep(), at.deep()] =~= seq![t.deep()] + seq![at.deep()]);
                lemma_subrange_concat(s@, pos as int, p1 as int, e as int);
                lemma_subrange_concat(s@, pos as int, e as int, p2 as int);
            }
            (cat(cat(one(t), one(at)), rest), p2)
        },
        None => {
            proof {
                lemma_empty_at(s@, pos as int);
            }
            (Vec::new(), pos)
        },
    }
}

/// A simple named type: an identifier, classified as scalar or user
/// name, with an optional generic argument list, wrapped as one `Type`.
fn simple_named_type(s: &[u8], pos: usize) -> (r: Option<(Vec<Token>, usize)>)
    requires
        pos <= s.len(),
    ensures
        list_post(grammar::simple_named_type(s@, pos as int), s@, pos as int, r),
    decreases s@.len() - pos, 0int,
{
    let e = scan_ident_end_x(s, pos);
    if e == pos {
        return None;
    }
    let name = copy_range(s, pos, e);
    let prim = is_primitive(name.as_slice());
    let name_tok = if prim {
        Token::Primitive(Primitive::Named(name))
    } else {
        Token::Identifier(name)
    };
    let (params, p2) = generic_params_opt(s, e);
    proof {
        lemma_subrange_concat(s@, pos as int, e as int, p2 as int);
    }
    let ty = Token::Type(TokenStream(cat(one(name_tok), params)));
    Some((one(ty), p2))
}

/// An optional angle-bracketed generic argument list.
fn generic_params_opt(s: &[u8], pos: usize) -> (r: (Vec<Token>, usize))
    requires
        pos <= s.len(),
    ensures
        total_post(grammar::generic_params_opt(s@, pos as int), s@, pos as int, r),
    decreases s@.len() - pos, 1int,
{
    match lex1x(s, pos, LT_B) {
        Some((lt_tok, q1)) => match type_param(s, q1) {
            Some((tp1, q2)) => {
                let (rest, q3) = params_rest(s, q2);
                let q4 = skip_spaces_x(s, q3);
                if m1x(s, q4, GT_B) {
                    let gt_txt = Token::Text(copy_range(s, q3, q4 + 1));
                    proof {
                        lemma_subrange_concat(s@, pos as int, q1 as int, q2 as int);
                        lemma_subrange_concat(s@, pos as int, q2 as int, q3 as int);
                        lemma_subrange_concat(s@, pos as int, q3 as int, q4 + 1);
                    }
                    (cat(cat(cat(one(lt_tok), tp1), rest), one(gt_txt)), q4 + 1)
                } else {
                    proof {
                        lemma_empty_at(s@, pos as int);
                    }
                    (Vec::new(), pos)
                }
            },
            None => {
                proof {
                    lemma_empty_at(s@, pos as int);
                }
                (Vec::new(), pos)
            },
        },
        None => {
            proof {
                lemma_empty_at(s@, pos as int);
            }
            (Vec::new(), pos)
        },
    }
}

/// Zero or more further `,`-separated generic arguments.
fn params_rest(s: &[u8], pos: usize) -> (r: (Vec<Token>, usize))
    requires
        pos <= s.len(),
    ensures
        total_post(grammar::params_rest(s@, pos as int), s@, pos as int, r),
    decreases s@.len() - pos, 0int,
{
    match lex1x(s, pos, COMMA) {
        Some((sep, p1)) => match type_param(s, p1) {
            Some((item, p2)) => {
                let (rest, p3) = params_rest(s, p2);
                proof {
                    lemma_subrange_concat(s@, pos as int, p1 as int, p2 as int);
                    lemma_subrange_concat(s@, pos as int, p2 as int, p3 as int);
                }
                (cat(cat(one(sep), item), rest), p3)
            },
            None => {
                proof {
                    lemma_empty_at(s@, pos as int);
                }
                (Vec::new(), pos)
            },
        },
        None => {
            proof {
                lemma_empty_at(s@, pos as int);
            }
            (Vec::new(), pos)
        },
    }
}

/// One generic argument: a lifetime, an associated-type binding, or a
/// plain type expression, tried in that order.
fn type_param(s: &[u8], pos: usize) -> (r: Option<(Vec<Token>, usize)>)
    requires
        pos <= s.len(),
    ensures
        list_post(grammar::type_param(s@, pos as int), s@, pos as int, r),
    decreases s@.len() - pos, 7int,
{
    match scan_lifetime_x(s, pos) {
        Some(e) => Some((one(Token::Text(copy_range(s, pos, e))), e)),
        None => match assoc_type_param(s, pos) {
            Some((v, p)) => Some((v, p)),
            None => type_like(s, pos),
        },
    }
}

/// An associated-type binding: a name, `=`, a type expression.
fn assoc_type_param(s: &[u8], pos: usize) -> (r: Option<(Vec<Token>, usize)>)
    requires
        pos <= s.len(),
    ensures
        list_post(grammar::assoc_type_param(s@, pos as int), s@, pos as int, r),
    decreases s@.len() - pos, 6int,
{
    let e = scan_ident_end_x(s, pos);
    if e == pos {
        return None;
    }
    match lex1x(s, e, EQ_B) {
        Some((eq_tok, q1)) => match type_like(s, q1) {
            Some((ts, q2)) => {
                let at = Token::AssocType(copy_range(s, pos, e));
                proof {
                    assert(seq![at.deep(), eq_tok.deep()] =~= seq![at.deep()] + seq![
                        eq_tok.deep()
                    ]);
                    lemma_subrange_concat(s@, pos as int, e as int, q1 as int);
                    lemma_subrange_concat(s@, pos as int, q1 as int, q2 as int);
                }
                Some((cat(cat(one(at), one(eq_tok)), ts), q2))
            },
            None => None,
        },
        None => None,
    }
}

/// One where-clause constraint: a single type, `:`, `+`-separated
/// bound types.
fn single_where_constraint(s: &[u8], pos: usize) -> (r: Option<(Vec<Token>, usize)>)
    requires
        pos <= s.len(),
    ensures
        list_post(grammar::single_where_constraint(s@, pos as int), s@, pos as int, r),
{
    match single_type_like(s, pos) {
        Some((t1, p1)) => match lex1x(s, p1, COLON) {
            Some((c, q1)) => match simple_named_type(s, q1) {
                Some((b1, q2)) => {
                    let (rest, q3) = bounds_rest(s, q2);
                    proof {
                        lemma_subrange_concat(s@, pos as int, p1 as int, q1 as int);
                        lemma_subrange_concat(s@, pos as int, q1 as int, q2 as int);
                        lemma_subrange_concat(s@, pos as int, q2 as int, q3 as int);
                    }
                    Some((cat(cat(cat(t1, one(c)), b1), rest), q3))
                },
                None => None,
            },
            None => None,
        },
        None => None,
    }
}

/// Zero or more further `,`-separated where-clause constraints.
fn constraints_rest(s: &[u8], pos: usize) -> (r: (Vec<Token>, usize))
    requires
        pos <= s.len(),
    ensures
        total_post(grammar::constraints_rest(s@, pos as int), s@, pos as int, r),
    decreases s@.len() - pos,
{
    match lex1x(s, pos, COMMA) {
        Some((sep, p1)) => match single_where_constraint(s, p1) {
            Some((item, p2)) => {
                let (rest, p3) = constraints_rest(s, p2);
                proof {
                    lemma_subrange_concat(s@, pos as int, p1 as int, p2 as int);
                    lemma_subrange_concat(s@, pos as int, p2 as int, p3 as int);
                }
                (cat(cat(one(sep), item), rest), p3)
            },
            None => {
                proof {
                    lemma_empty_at(s@, pos as int);
                }
                (Vec::new(), pos)
            },
        },
        None => {
            proof {
                lemma_empty_at(s@, pos as int);
            }
            (Vec::new(), pos)
        },
    }
}

/// A where-clause: the `where` keyword with its surrounding whitespace,
/// then one or more comma-separated constraints.
fn where_clause(s: &[u8], pos: usize) -> (r: Option<(Vec<Token>, usize)>)
    requires
        pos <= s.len(),
    ensures
        list_post(grammar::where_clause(s@, pos as int), s@, pos as int, r),
{
    let (sp1, q0) = maybe_spaces_x(s, pos);
    if !m5x(s, q0, 119, 104, 101, 114, 101) {
        return None;
    }
    let (sp2, q1) = maybe_spaces_x(s, q0 + 5);
    match single_where_constraint(s, q1) {
        Some((c1, p1)) => {
            let (rest, p2) = constraints_rest(s, p1);
            let kw = Token::Where;
            proof {
                assert(token_text(kw.deep()) =~= s@.subrange(q0 as int, q0 + 5));
                lemma_subrange_concat(s@, pos as int, q0 as int, q0 + 5);
                lemma_subrange_concat(s@, pos as int, q0 + 5, q1 as int);
                lemma_subrange_concat(s@, pos as int, q1 as int, p1 as int);
                lemma_subrange_concat(s@, pos as int, p1 as int, p2 as int);
            }
            Some((cat(cat(cat(cat(sp1, one(kw)), sp2), c1), rest), p2))
        },
        None => None,
    }
}

/// An optional `->` and return type.
fn ret_opt_x(s: &[u8], pos: usize) -> (r: (Vec<Token>, usize))
    requires
        pos <= s.len(),
    ensures
        total_post(grammar::ret_opt(s@, pos as int), s@, pos as int, r),
{
    match lex2x(s, pos, DASH, GT_B) {
        Some((t, q1)) => match single_type_like(s, q1) {
            Some((rt, q2)) => {
                proof {
                    lemma_subrange_concat(s@, pos as int, q1 as int, q2 as int);
                }
                (cat(one(t), rt), q2)
            },
            None => {
                proof {
                    lemma_empty_at(s@, pos as int);
                }
                (Vec::new(), pos)
            },
        },
        None => {
            proof {
                lemma_empty_at(s@, pos as int);
            }
            (Vec::new(), pos)
        },
    }
}

/// An optional where-clause.
fn where_opt_x(s: &[u8], pos: usize) -> (r: (Vec<Token>, usize))
    requires
        pos <= s.len(),
    ensures
        total_post(grammar::where_opt(s@, pos as int), s@, pos as int, r),
{
    match where_clause(s, pos) {
        Some((w, p)) => (w, p),
        None => {
            proof {
                lemma_empty_at(s@, pos as int);
            }
            (Vec::new(), pos)
        },
    }
}

/// Everything of a signature after the name: the parameter list, an
/// optional return type, an optional where-clause.
fn item_after_name(s: &[u8], pos: usize) -> (r: Option<(Vec<Token>, usize)>)
    requires
        pos <= s.len(),
    ensures
        list_post(grammar::item_after_name(s@, pos as int), s@, pos as int, r),
{
    match lex1x(s, pos, LPAREN) {
        Some((t1, p1)) => {
            let (ltoks, p2) = nested_type_like_list(s, p1);
            match lex1x(s, p2, RPAREN) {
                Some((t2, p3)) => {
                    let (ret, p4) = ret_opt_x(s, p3);
                    let (wc, p5) = where_opt_x(s, p4);
                    proof {
                        lemma_subrange_concat(s@, pos as int, p1 as int, p2 as int);
                        lemma_subrange_concat(s@, pos as int, p2 as int, p3 as int);
                        lemma_subrange_concat(s@, pos as int, p3 as int, p4 as int);
                        lemma_subrange_concat(s@, pos as int, p4 as int, p5 as int);
                    }
                    Some((cat(cat(cat(cat(one(t1), ltoks), one(t2)), ret), wc), p5))
                },
                None => None,
            }
        },
        None => None,
    }
}

/// An optional `=>` and comma-separated associated-type bindings.
fn impl_bindings_opt_x(s: &[u8], pos: usize) -> (r: (Vec<Token>, usize))
    requires
        pos <= s.len(),
    ensures
        total_post(grammar::impl_bindings_opt(s@, pos as int), s@, pos as int, r),
{
    match lex2x(s, pos, EQ_B, GT_B) {
        Some((t, q1)) => match assoc_type_param(s, q1) {
            Some((a1, q2)) => {
                let (rest, q3) = bindings_rest_x(s, q2);
                proof {
                    lemma_subrange_concat(s@, pos as int, q1 as int, q2 as int);
                    lemma_subrange_concat(s@, pos as int, q2 as int, q3 as int);
                }
                (cat(cat(one(t), a1), rest), q3)
            },
            None => {
                proof {
                    lemma_empty_at(s@, pos as int);
                }
                (Vec::new(), pos)
            },
        },
        None => {
            proof {
                lemma_empty_at(s@, pos as int);
            }
            (Vec::new(), pos)
        },
    }
}

/// Zero or more further `,`-separated associated-type bindings.
fn bindings_rest_x(s: &[u8], pos: usize) -> (r: (Vec<Token>, usize))
    requires
        pos <= s.len(),
    ensures
        total_post(grammar::bindings_rest(s@, pos as int), s@, pos as int, r),
    decreases s@.len() - pos,
{
    match lex1x(s, pos, COMMA) {
        Some((sep, p1)) => match assoc_type_param(s, p1) {
            Some((item, p2)) => {
                let (rest, p3) = bindings_rest_x(s, p2);
                proof {
                    lemma_subrange_concat(s@, pos as int, p1 as int, p2 as int);
                    lemma_subrange_concat(s@, pos as int, p2 as int, p3 as int);
                }
                (cat(cat(one(sep), item), rest), p3)
            },
            None => {
                proof {
                    lemma_empty_at(s@, pos as int);
                }
                (Vec::new(), pos)
            },
        },
        None => {
            proof {
                lemma_empty_at(s@, pos as int);
            }
            (Vec::new(), pos)
        },
    }
}

/// Parse a single type expression over the whole input. On success the
/// stream is exactly what the grammar yields for the input, and its
/// rendered text is the input itself, byte for byte; any input the
/// grammar does not match in full is rejected.
pub fn parse_type(input: &[u8]) -> (r: Result<TokenStream, ()>)
    ensures
        match r {
            Ok(ts) => {
                &&& grammar::spec_parse_type(input@) == Some(ts.deep())
                &&& stream_text(ts.deep()) == input@
            },
            Err(_) => grammar::spec_parse_type(input@) is None,
        },
{
    match single_type_like_token(input, 0) {
        Some((t, p)) => {
            if p == input.len() {
                match t {
                    Token::Type(inner) => {
                        proof {
                            assert(input@.subrange(0, input@.len() as int) =~= input@);
                        }
                        Ok(inner)
                    },
                    other => {
                        proof {
                            assert(!(other.deep() is Type));
                        }
                        Err(())
                    },
                }
            } else {
                Err(())
            }
        },
        None => Err(()),
    }
}

/// Parse a where-clause over the whole input; the keyword token itself
/// is part of the stream. Success and the stream are exactly what the
/// grammar describes, and the stream renders back to the input.
pub fn parse_constraints(input: &[u8]) -> (r: Result<TokenStream, ()>)
    ensures
        match r {
            Ok(ts) => {
                &&& grammar::spec_parse_constraints(input@) == Some(ts.deep())
                &&& stream_text(ts.deep()) == input@
            },
            Err(_) => grammar::spec_parse_constraints(input@) is None,
        },
{
    match where_clause(input, 0) {
        Some((toks, p)) => {
            if p == input.len() {
                proof {
                    assert(input@.subrange(0, input@.len() as int) =~= input@);
                }
                Ok(TokenStream(toks))
            } else {
                Err(())
            }
        },
        None => Err(()),
    }
}

/// Parse an implementation header over the whole input: a single type,
/// optionally followed by `=>` and associated-type bindings.
pub fn parse_impl(input: &[u8]) -> (r: Result<TokenStream, ()>)
    ensures
        match r {
            Ok(ts) => {
                &&& grammar::spec_parse_impl(input@) == Some(ts.deep())
                &&& stream_text(ts.deep()) == input@
            },
            Err(_) => grammar::spec_parse_impl(input@) is None,
        },
{
    match single_type_like(input, 0) {
        Some((t1, p1)) => {
            let (b, p2) = impl_bindings_opt_x(input, p1);
            if p2 == input.len() {
                proof {
                    lemma_subrange_concat(input@, 0, p1 as int, p2 as int);
                    assert(input@.subrange(0, input@.len() as int) =~= input@);
                }
                Ok(TokenStream(cat(t1, b)))
            } else {
                Err(())
            }
        },
        None => Err(()),
    }
}

/// Parse a trait-implementation header: the same grammar as
/// `parse_impl`, exposed separately for caller-side distinction only.
pub fn parse_trait_impl(input: &[u8]) -> (r: Result<TokenStream, ()>)
    ensures
        match r {
            Ok(ts) => {
                &&& grammar::spec_parse_impl(input@) == Some(ts.deep())
                &&& stream_text(ts.deep()) == input@
            },
            Err(_) => grammar::spec_parse_impl(input@) is None,
        },
{
    parse_impl(input)
}

/// The leading bytes a parsed signature starts with: nothing when the
/// item takes an implicit receiver, the path separator when it does not.
pub open spec fn path_prefix(takes_self: bool) -> Seq<u8> {
    if takes_self {
        Seq::empty()
    } else {
        seq![COLON, COLON]
    }
}

/// A parsed method-style signature: whether the item operates on an
/// implicit receiver, its name, and the tokens of everything after the
/// name.
pub struct ParsedItem {
    pub takes_self: bool,
    pub name: Vec<u8>,
    pub tokens: TokenStream,
}

impl ParsedItem {
    /// Parse a method-style signature over the whole input: an optional
    /// leading `::` (absent exactly when the item takes an implicit
    /// receiver), the name, the parameter list, an optional return type
    /// and an optional where-clause. On success the input is exactly the
    /// optional path separator, the name, and the rendered tokens.
    #[verifier::rlimit(60)]
    pub fn parse(input: &[u8]) -> (r: Result<ParsedItem, ()>)
        ensures
            match r {
                Ok(item) => {
                    &&& grammar::spec_parse_item(input@) == Some(
                        (item.takes_self, item.name@, item.tokens.deep()),
                    )
                    &&& input@ == path_prefix(item.takes_self) + item.name@ + stream_text(
                        item.tokens.deep(),
                    )
                },
                Err(_) => grammar::spec_parse_item(input@) is None,
            },
    {
        let has_path = m2x(input, 0, COLON, COLON);
        let p0: usize = if has_path {
            2
        } else {
            0
        };
        let e = scan_ident_end_x(input, p0);
        if e == p0 {
            return Err(());
        }
        let name = copy_range(input, p0, e);
        match item_after_name(input, e) {
            Some((toks, p)) => {
                if p == input.len() {
                    proof {
                        assert(path_prefix(!has_path) =~= input@.subrange(0, p0 as int));
                        lemma_subrange_concat(input@, 0, p0 as int, e as int);
                        lemma_subrange_concat(input@, 0, e as int, p as int);
                        assert(input@.subrange(0, input@.len() as int) =~= input@);
                    }
                    Ok(ParsedItem { takes_self: !has_path, name, tokens: TokenStream(toks) })
                } else {
                    Err(())
                }
            },
            None => Err(()),
        }
    }
}

} // verus!
