//! The grammar, stated mathematically: each rule is a spec function from
//! an input byte sequence and a cursor to the produced tokens and the new
//! cursor, or `None` where the rule does not match. Alternatives are tried
//! in a fixed priority order with full backtracking: a failed alternative
//! leaves the cursor where it was. The executable parser is proved to
//! return exactly what these functions describe.
use vstd::prelude::*;

use crate::token::RangeToken;
use crate::token::SpecPrimitive;
use crate::token::SpecToken;
use crate::token::AMP;
use crate::token::DOT;
use crate::token::EQ_B;
use crate::token::LBRACK;
use crate::token::LPAREN;
use crate::token::RBRACK;
use crate::token::RPAREN;
use crate::token::STAR;

verus! {

/// `|`
pub const PIPE: u8 = 124;

/// `,`
pub const COMMA: u8 = 44;

/// `:`
pub const COLON: u8 = 58;

/// `+`
pub const PLUS: u8 = 43;

/// `<`
pub const LT_B: u8 = 60;

/// `>`
pub const GT_B: u8 = 62;

/// `-`
pub const DASH: u8 = 45;

/// `'`
pub const APOS: u8 = 39;

/// Whitespace, as the lexer skips it: space, tab, line and page breaks.
pub open spec fn is_space(b: u8) -> bool {
    b == 32 || (9 <= b && b <= 13)
}

/// A letter, as lifetime names are made of.
pub open spec fn is_letter(b: u8) -> bool {
    (65 <= b && b <= 90) || (97 <= b && b <= 122)
}

/// An identifier byte: letter, digit or underscore.
pub open spec fn is_ident_byte(b: u8) -> bool {
    is_letter(b) || (48 <= b && b <= 57) || b == 95
}

/// The end of the whitespace run that starts at `pos`.
pub open spec fn skip_spaces(s: Seq<u8>, pos: int) -> int
    decreases s.len() - pos,
{
    if 0 <= pos && pos < s.len() && is_space(s[pos]) {
        skip_spaces(s, pos + 1)
    } else {
        pos
    }
}

/// The end of the identifier run that starts at `pos`.
pub open spec fn scan_ident_end(s: Seq<u8>, pos: int) -> int
    decreases s.len() - pos,
{
    if 0 <= pos && pos < s.len() && is_ident_byte(s[pos]) {
        scan_ident_end(s, pos + 1)
    } else {
        pos
    }
}

/// The end of the letter run that starts at `pos`.
pub open spec fn scan_letters_end(s: Seq<u8>, pos: int) -> int
    decreases s.len() - pos,
{
    if 0 <= pos && pos < s.len() && is_letter(s[pos]) {
        scan_letters_end(s, pos + 1)
    } else {
        pos
    }
}

/// A lifetime: an apostrophe followed by one or more letters; the end of
/// the match, if it matches at `pos`.
pub open spec fn scan_lifetime(s: Seq<u8>, pos: int) -> Option<int> {
    if 0 <= pos && pos < s.len() && s[pos] == APOS {
        let e = scan_letters_end(s, pos + 1);
        if e > pos + 1 {
            Some(e)
        } else {
            None
        }
    } else {
        None
    }
}

/// One fixed byte stands at `pos`.
pub open spec fn m1(s: Seq<u8>, pos: int, a: u8) -> bool {
    0 <= pos && pos + 1 <= s.len() && s[pos] == a
}

/// Two fixed bytes stand at `pos`.
pub open spec fn m2(s: Seq<u8>, pos: int, a: u8, b: u8) -> bool {
    0 <= pos && pos + 2 <= s.len() && s[pos] == a && s[pos + 1] == b
}

/// Three fixed bytes stand at `pos`.
pub open spec fn m3(s: Seq<u8>, pos: int, a: u8, b: u8, c: u8) -> bool {
    0 <= pos && pos + 3 <= s.len() && s[pos] == a && s[pos + 1] == b && s[pos + 2] == c
}

/// Four fixed bytes stand at `pos`.
pub open spec fn m4(s: Seq<u8>, pos: int, a: u8, b: u8, c: u8, d: u8) -> bool {
    0 <= pos && pos + 4 <= s.len() && s[pos] == a && s[pos + 1] == b && s[pos + 2] == c && s[pos + 3]
        == d
}

/// Five fixed bytes stand at `pos`.
pub open spec fn m5(s: Seq<u8>, pos: int, a: u8, b: u8, c: u8, d: u8, e: u8) -> bool {
    0 <= pos && pos + 5 <= s.len() && s[pos] == a && s[pos + 1] == b && s[pos + 2] == c && s[pos + 3]
        == d && s[pos + 4] == e
}

/// The cursor moved forward and stayed inside the input.
pub open spec fn moved(s: Seq<u8>, pos: int, p: int) -> bool {
    pos < p && p <= s.len()
}

/// The `Text` token of a lexed literal: everything from `pos` over the
/// literal of length `n` found at `p1` up to the end of the trailing
/// whitespace, as one verbatim slice.
pub open spec fn lex_tok(s: Seq<u8>, pos: int, p1: int, n: int) -> (SpecToken, int) {
    let p2 = skip_spaces(s, p1 + n);
    (SpecToken::Text(s.subrange(pos, p2)), p2)
}

/// A one-byte literal with optional whitespace on both sides, captured
/// together with that whitespace as one `Text` token.
pub open spec fn lex1(s: Seq<u8>, pos: int, a: u8) -> Option<(SpecToken, int)> {
    let p1 = skip_spaces(s, pos);
    if m1(s, p1, a) {
        Some(lex_tok(s, pos, p1, 1))
    } else {
        None
    }
}

/// A two-byte literal surrounded by optional whitespace, as one `Text`.
pub open spec fn lex2(s: Seq<u8>, pos: int, a: u8, b: u8) -> Option<(SpecToken, int)> {
    let p1 = skip_spaces(s, pos);
    if m2(s, p1, a, b) {
        Some(lex_tok(s, pos, p1, 2))
    } else {
        None
    }
}

/// A four-byte literal surrounded by optional whitespace, as one `Text`.
pub open spec fn lex4(s: Seq<u8>, pos: int, a: u8, b: u8, c: u8, d: u8) -> Option<
    (SpecToken, int),
> {
    let p1 = skip_spaces(s, pos);
    if m4(s, p1, a, b, c, d) {
        Some(lex_tok(s, pos, p1, 4))
    } else {
        None
    }
}

/// Whitespace at `pos`, captured as one `Text` token when there is any.
pub open spec fn maybe_spaces(s: Seq<u8>, pos: int) -> (Seq<SpecToken>, int) {
    let p = skip_spaces(s, pos);
    if p == pos {
        (Seq::empty(), pos)
    } else {
        (seq![SpecToken::Text(s.subrange(pos, p))], p)
    }
}

/// Two-byte keyword: the whole sequence is exactly those bytes.
pub open spec fn kw2(n: Seq<u8>, a: u8, b: u8) -> bool {
    n.len() == 2 && n[0] == a && n[1] == b
}

/// Three-byte keyword.
pub open spec fn kw3(n: Seq<u8>, a: u8, b: u8, c: u8) -> bool {
    n.len() == 3 && n[0] == a && n[1] == b && n[2] == c
}

/// Four-byte keyword.
pub open spec fn kw4(n: Seq<u8>, a: u8, b: u8, c: u8, d: u8) -> bool {
    n.len() == 4 && n[0] == a && n[1] == b && n[2] == c && n[3] == d
}

/// Five-byte keyword.
pub open spec fn kw5(n: Seq<u8>, a: u8, b: u8, c: u8, d: u8, e: u8) -> bool {
    n.len() == 5 && n[0] == a && n[1] == b && n[2] == c && n[3] == d && n[4] == e
}

/// A fixed-width integer name with leading byte `c` (`i` or `u`):
/// 8, 16, 32, 64, 128 or size.
pub open spec fn int_kw(n: Seq<u8>, c: u8) -> bool {
    kw2(n, c, 56) || kw3(n, c, 49, 54) || kw3(n, c, 51, 50) || kw3(n, c, 54, 52) || kw4(
        n,
        c,
        49,
        50,
        56,
    ) || kw5(n, c, 115, 105, 122, 101)
}

/// The closed set of fifteen scalar type names: `bool`, `char`, `str`,
/// the signed and unsigned fixed-width integers and the pointer-sized
/// pair. Exact, case-sensitive match; anything else is a user name.
pub open spec fn spec_is_primitive(n: Seq<u8>) -> bool {
    kw4(n, 98, 111, 111, 108)  // bool
     || kw4(n, 99, 104, 97, 114)  // char
     || kw3(n, 115, 116, 114)  // str
     || int_kw(n, 105)  // i…
     || int_kw(n, 117)  // u…

}

/// Normalisation of a single-type production: a lone, already wrapped
/// `Type` token stays as it is; anything else is wrapped as one `Type`.
pub open spec fn to_type(toks: Seq<SpecToken>) -> SpecToken {
    if toks.len() == 1 && toks[0] is Type {
        toks[0]
    } else {
        SpecToken::Type(toks)
    }
}

/// Which range shape the present sides and the operator select, if any.
pub open spec fn range_kind(has_start: bool, inc: bool, has_end: bool) -> Option<RangeToken> {
    if !has_start && !inc && !has_end {
        Some(RangeToken::RangeFull)
    } else if !has_start && !inc && has_end {
        Some(RangeToken::RangeTo)
    } else if !has_start && inc && has_end {
        Some(RangeToken::RangeToInclusive)
    } else if has_start && !inc && !has_end {
        Some(RangeToken::RangeFrom)
    } else if has_start && !inc && has_end {
        Some(RangeToken::Range)
    } else if has_start && inc && has_end {
        Some(RangeToken::RangeInclusive)
    } else {
        None
    }
}

/// A type expression: one or more single types separated by `|`.
pub open spec fn type_like(s: Seq<u8>, pos: int) -> Option<(Seq<SpecToken>, int)>
    decreases s.len() - pos, 5int,
{
    match single_type_like(s, pos) {
        Some((first, p1)) => if moved(s, pos, p1) {
            let (rest, p2) = type_like_rest(s, p1);
            Some((first + rest, p2))
        } else {
            None
        },
        None => None,
    }
}

/// Zero or more further `|`-separated single types.
pub open spec fn type_like_rest(s: Seq<u8>, pos: int) -> (Seq<SpecToken>, int)
    decreases s.len() - pos, 0int,
{
    match lex1(s, pos, PIPE) {
        Some((sep, p1)) => if moved(s, pos, p1) {
            match single_type_like(s, p1) {
                Some((item, p2)) => if moved(s, p1, p2) {
                    let (rest, p3) = type_like_rest(s, p2);
                    (seq![sep] + item + rest, p3)
                } else {
                    (Seq::empty(), pos)
                },
                None => (Seq::empty(), pos),
            }
        } else {
            (Seq::empty(), pos)
        },
        None => (Seq::empty(), pos),
    }
}

/// A single type, as a one-token sequence.
pub open spec fn single_type_like(s: Seq<u8>, pos: int) -> Option<(Seq<SpecToken>, int)>
    decreases s.len() - pos, 4int,
{
    match single_type_like_token(s, pos) {
        Some((t, p)) => Some((seq![t], p)),
        None => None,
    }
}

/// A single type: the alternatives in strict priority order, each with
/// full backtracking, the result normalised to one `Type` token.
pub open spec fn single_type_like_token(s: Seq<u8>, pos: int) -> Option<(SpecToken, int)>
    decreases s.len() - pos, 3int,
{
    match ref_type(s, pos) {
        Some((toks, p)) => Some((to_type(toks), p)),
        None => match ptr_type(s, pos) {
            Some((toks, p)) => Some((to_type(toks), p)),
            None => match slice_type(s, pos) {
                Some((toks, p)) => Some((to_type(toks), p)),
                None => match fn_type(s, pos) {
                    Some((toks, p)) => Some((to_type(toks), p)),
                    None => match tuple_type(s, pos) {
                        Some((toks, p)) => Some((to_type(toks), p)),
                        None => match range_type(s, pos) {
                            Some((toks, p)) => Some((to_type(toks), p)),
                            None => match named_type(s, pos) {
                                Some((toks, p)) => Some((to_type(toks), p)),
                                None => None,
                            },
                        },
                    },
                },
            },
        },
    }
}

/// A reference: `&`, optional `mut`, optional lifetime (with the spacing
/// before it), all captured as the marker's prefix, then a single type.
pub open spec fn ref_type(s: Seq<u8>, pos: int) -> Option<(Seq<SpecToken>, int)>
    decreases s.len() - pos, 2int,
{
    if m1(s, pos, AMP) {
        let p1 = pos + 1;
        let p2 = if m3(s, p1, 109, 117, 116) {
            p1 + 3
        } else {
            p1
        };  // mut
        let q = skip_spaces(s, p2);
        let p3 = match scan_lifetime(s, q) {
            Some(e) => e,
            None => p2,
        };
        let prefix = SpecToken::Primitive(SpecPrimitive::Ref(s.subrange(pos + 1, p3)));
        let (sp, p4) = maybe_spaces(s, p3);
        if moved(s, pos, p4) {
            match single_type_like(s, p4) {
                Some((t, p5)) => Some((seq![prefix] + sp + t, p5)),
                None => None,
            }
        } else {
            None
        }
    } else {
        None
    }
}

/// A raw pointer: `*` followed by exactly `const` or `mut`, captured as
/// the marker's prefix, then a single type.
pub open spec fn ptr_type(s: Seq<u8>, pos: int) -> Option<(Seq<SpecToken>, int)>
    decreases s.len() - pos, 2int,
{
    if m1(s, pos, STAR) {
        if m5(s, pos + 1, 99, 111, 110, 115, 116) {  // const
            ptr_tail(s, pos, pos + 6)
        } else if m3(s, pos + 1, 109, 117, 116) {  // mut
            ptr_tail(s, pos, pos + 4)
        } else {
            None
        }
    } else {
        None
    }
}

/// The rest of a raw pointer once the prefix is known to end at `p2`.
pub open spec fn ptr_tail(s: Seq<u8>, pos: int, p2: int) -> Option<(Seq<SpecToken>, int)>
    decreases s.len() - pos, 1int,
{
    let prefix = SpecToken::Primitive(SpecPrimitive::Ptr(s.subrange(pos + 1, p2)));
    let (sp, p3) = maybe_spaces(s, p2);
    if moved(s, pos, p3) {
        match single_type_like(s, p3) {
            Some((t, p4)) => Some((seq![prefix] + sp + t, p4)),
            None => None,
        }
    } else {
        None
    }
}

/// A slice: `[`, a type expression, `]`, the boundary markers carrying
/// any adjacent whitespace as separate `Text` tokens.
pub open spec fn slice_type(s: Seq<u8>, pos: int) -> Option<(Seq<SpecToken>, int)>
    decreases s.len() - pos, 2int,
{
    if m1(s, pos, LBRACK) {
        let (sp1, p1) = maybe_spaces(s, pos + 1);
        if moved(s, pos, p1) {
            match type_like(s, p1) {
                Some((ts, p2)) => {
                    let (sp2, p3) = maybe_spaces(s, p2);
                    if m1(s, p3, RBRACK) {
                        Some(
                            (
                                seq![SpecToken::Primitive(SpecPrimitive::SliceStart)] + sp1 + ts
                                    + sp2 + seq![SpecToken::Primitive(SpecPrimitive::SliceEnd)],
                                p3 + 1,
                            ),
                        )
                    } else {
                        None
                    }
                },
                None => None,
            }
        } else {
            None
        }
    } else {
        None
    }
}

/// A function type: `(`, a possibly empty parameter list, `) ->`, then a
/// type expression; punctuation and spacing kept as two `Text` tokens.
pub open spec fn fn_type(s: Seq<u8>, pos: int) -> Option<(Seq<SpecToken>, int)>
    decreases s.len() - pos, 2int,
{
    if m1(s, pos, LPAREN) {
        let p1 = skip_spaces(s, pos + 1);
        let t1 = SpecToken::Text(s.subrange(pos, p1));
        if moved(s, pos, p1) {
            let (ltoks, p2) = nested_type_like_list(s, p1);
            let q1 = skip_spaces(s, p2);
            if m1(s, q1, RPAREN) {
                let q2 = skip_spaces(s, q1 + 1);
                if m2(s, q2, DASH, GT_B) {
                    let q3 = skip_spaces(s, q2 + 2);
                    let t2 = SpecToken::Text(s.subrange(p2, q3));
                    if moved(s, pos, q3) {
                        match type_like(s, q3) {
                            Some((rt, p4)) => Some((seq![t1] + ltoks + seq![t2] + rt, p4)),
                            None => None,
                        }
                    } else {
                        None
                    }
                } else {
                    None
                }
            } else {
                None
            }
        } else {
            None
        }
    } else {
        None
    }
}

/// A tuple-like production: the empty-tuple literal with its surrounding
/// whitespace, or `(`, a variadic or comma-separated inside, then `)`.
pub open spec fn tuple_type(s: Seq<u8>, pos: int) -> Option<(Seq<SpecToken>, int)>
    decreases s.len() - pos, 2int,
{
    let (sp0, q0) = maybe_spaces(s, pos);
    if m2(s, q0, LPAREN, RPAREN) {
        let (sp1, q1) = maybe_spaces(s, q0 + 2);
        Some((sp0 + seq![SpecToken::Primitive(SpecPrimitive::Unit)] + sp1, q1))
    } else if m1(s, pos, LPAREN) {
        let (sp1, p1) = maybe_spaces(s, pos + 1);
        if moved(s, pos, p1) {
            match tuple_variadic(s, p1) {
                Some((inner, p2)) => tuple_close(s, sp1, inner, p2),
                None => {
                    let (inner, p2) = nested_type_like_list(s, p1);
                    tuple_close(s, sp1, inner, p2)
                },
            }
        } else {
            None
        }
    } else {
        None
    }
}

/// The variadic inside of a tuple: a type expression immediately followed
/// by a literal `,` and `...`, grouped as one `Nested` token.
pub open spec fn tuple_variadic(s: Seq<u8>, pos: int) -> Option<(Seq<SpecToken>, int)>
    decreases s.len() - pos, 6int,
{
    match type_like(s, pos) {
        Some((ts, p2)) => {
            let q1 = skip_spaces(s, p2);
            if m1(s, q1, COMMA) {
                let q2 = skip_spaces(s, q1 + 1);
                if m3(s, q2, DOT, DOT, DOT) {
                    let q3 = skip_spaces(s, q2 + 3);
                    Some(
                        (
                            seq![
                                SpecToken::Nested(ts + seq![SpecToken::Text(s.subrange(p2, q3))])
                            ],
                            q3,
                        ),
                    )
                } else {
                    None
                }
            } else {
                None
            }
        },
        None => None,
    }
}

/// The closing of a tuple: optional whitespace and `)`.
pub open spec fn tuple_close(s: Seq<u8>, sp1: Seq<SpecToken>, inner: Seq<SpecToken>, p2: int) -> Option<
    (Seq<SpecToken>, int),
> {
    let (sp2, p3) = maybe_spaces(s, p2);
    if m1(s, p3, RPAREN) {
        Some(
            (
                seq![SpecToken::Primitive(SpecPrimitive::TupleStart)] + sp1 + inner + sp2 + seq![
                    SpecToken::Primitive(SpecPrimitive::TupleEnd)
                ],
                p3 + 1,
            ),
        )
    } else {
        None
    }
}

/// A possibly empty comma-separated list of type expressions, grouped as
/// one `Nested` token when it is not empty.
pub open spec fn nested_type_like_list(s: Seq<u8>, pos: int) -> (Seq<SpecToken>, int)
    decreases s.len() - pos, 7int,
{
    match type_like(s, pos) {
        Some((t1, p1)) => if moved(s, pos, p1) {
            let (rest, p2) = nested_list_rest(s, p1);
            (seq![SpecToken::Nested(t1 + rest)], p2)
        } else {
            (Seq::empty(), pos)
        },
        None => (Seq::empty(), pos),
    }
}

/// Zero or more further `,`-separated type expressions.
pub open spec fn nested_list_rest(s: Seq<u8>, pos: int) -> (Seq<SpecToken>, int)
    decreases s.len() - pos, 0int,
{
    match lex1(s, pos, COMMA) {
        Some((sep, p1)) => if moved(s, pos, p1) {
            match type_like(s, p1) {
                Some((item, p2)) => if moved(s, p1, p2) {
                    let (rest, p3) = nested_list_rest(s, p2);
                    (seq![sep] + item + rest, p3)
                } else {
                    (Seq::empty(), pos)
                },
                None => (Seq::empty(), pos),
            }
        } else {
            (Seq::empty(), pos)
        },
        None => (Seq::empty(), pos),
    }
}

/// A range: an optional named type, `..=` or `..` (in that order), an
/// optional named type; the sides present select the shape.
pub open spec fn range_type(s: Seq<u8>, pos: int) -> Option<(Seq<SpecToken>, int)>
    decreases s.len() - pos, 2int,
{
    let (start, p1, has_start) = match named_type(s, pos) {
        Some((st, q)) => (st, q, true),
        None => (Seq::empty(), pos, false),
    };
    let q = skip_spaces(s, p1);
    if m3(s, q, DOT, DOT, EQ_B) {
        range_tail(s, pos, start, has_start, p1, q, q + 3, true)
    } else if m2(s, q, DOT, DOT) {
        range_tail(s, pos, start, has_start, p1, q, q + 2, false)
    } else {
        None
    }
}

/// The rest of a range once the operator is known: whitespace touching
/// the operator is split out as separate `Text` tokens on either side.
pub open spec fn range_tail(
    s: Seq<u8>,
    pos: int,
    start: Seq<SpecToken>,
    has_start: bool,
    p1: int,
    q: int,
    p2: int,
    inc: bool,
) -> Option<(Seq<SpecToken>, int)>
    decreases s.len() - pos, 1int,
{
    let lead: Seq<SpecToken> = if q > p1 {
        seq![SpecToken::Text(s.subrange(p1, q))]
    } else {
        Seq::empty()
    };
    let p3 = skip_spaces(s, p2);
    let trail: Seq<SpecToken> = if p3 > p2 {
        seq![SpecToken::Text(s.subrange(p2, p3))]
    } else {
        Seq::empty()
    };
    let (end_toks, p4, has_end) = if moved(s, pos, p3) {
        match named_type(s, p3) {
            Some((et, r)) => (et, r, true),
            None => (Seq::empty(), p3, false),
        }
    } else {
        (Seq::empty(), p3, false)
    };
    match range_kind(has_start, inc, has_end) {
        Some(kind) => Some((start + lead + seq![SpecToken::Range(kind)] + trail + end_toks, p4)),
        None => None,
    }
}

/// A named type: an optional `dyn ` marker, a simple named type, zero or
/// more `::name` associated-item selectors, optional `+`-separated bounds.
pub open spec fn named_type(s: Seq<u8>, pos: int) -> Option<(Seq<SpecToken>, int)>
    decreases s.len() - pos, 1int,
{
    let (dyn_toks, p1) = match lex4(s, pos, 100, 121, 110, 32) {  // dyn␣
        Some((t, q)) => (seq![t], q),
        None => (Seq::empty(), pos),
    };
    if pos <= p1 && p1 <= s.len() {
        match simple_named_type(s, p1) {
            Some((snt, p2)) => if moved(s, p1, p2) {
                let (assoc, p3) = assoc_items_rest(s, p2);
                if moved(s, pos, p3) {
                    let (bnd, p4) = bounds_opt(s, p3);
                    Some((dyn_toks + snt + assoc + bnd, p4))
                } else {
                    None
                }
            } else {
                None
            },
            None => None,
        }
    } else {
        None
    }
}

/// An optional `+`-introduced list of additional bound types.
pub open spec fn bounds_opt(s: Seq<u8>, pos: int) -> (Seq<SpecToken>, int)
    decreases s.len() - pos, 1int,
{
    match lex1(s, pos, PLUS) {
        Some((t, q1)) => if moved(s, pos, q1) {
            match simple_named_type(s, q1) {
                Some((b1, q2)) => if moved(s, q1, q2) {
                    let (rest, q3) = bounds_rest(s, q2);
                    (seq![t] + b1 + rest, q3)
                } else {
                    (Seq::empty(), pos)
                },
                None => (Seq::empty(), pos),
            }
        } else {
            (Seq::empty(), pos)
        },
        None => (Seq::empty(), pos),
    }
}

/// Zero or more further `+`-separated simple named types.
pub open spec fn bounds_rest(s: Seq<u8>, pos: int) -> (Seq<SpecToken>, int)
    decreases s.len() - pos, 0int,
{
    match lex1(s, pos, PLUS) {
        Some((sep, p1)) => if moved(s, pos, p1) {
            match simple_named_type(s, p1) {
                Some((item, p2)) => if moved(s, p1, p2) {
                    let (rest, p3) = bounds_rest(s, p2);
                    (seq![sep] + item + rest, p3)
                } else {
                    (Seq::empty(), pos)
                },
                None => (Seq::empty(), pos),
            }
        } else {
            (Seq::empty(), pos)
        },
        None => (Seq::empty(), pos),
    }
}

/// Zero or more `::name` associated-item selectors.
pub open spec fn assoc_items_rest(s: Seq<u8>, pos: int) -> (Seq<SpecToken>, int)
    decreases s.len() - pos,
{
    match lex2(s, pos, COLON, COLON) {
        Some((t, p1)) => if moved(s, pos, p1) {
            let e = scan_ident_end(s, p1);
            if e > p1 && e <= s.len() {
                let (rest, p2) = assoc_items_rest(s, e);
                (seq![t, SpecToken::AssocType(s.subrange(p1, e))] + rest, p2)
            } else {
                (Seq::empty(), pos)
            }
        } else {
            (Seq::empty(), pos)
        },
        None => (Seq::empty(), pos),
    }
}

/// A simple named type: an identifier, classified as scalar or user name,
/// with an optional angle-bracketed argument list, wrapped as one `Type`.
pub open spec fn simple_named_type(s: Seq<u8>, pos: int) -> Option<(Seq<SpecToken>, int)>
    decreases s.len() - pos, 0int,
{
    let e = scan_ident_end(s, pos);
    if e > pos && e <= s.len() {
        let name = s.subrange(pos, e);
        let name_tok: SpecToken = if spec_is_primitive(name) {
            SpecToken::Primitive(SpecPrimitive::Named(name))
        } else {
            SpecToken::Identifier(name)
        };
        let (params, p2) = generic_params_opt(s, e);
        Some((seq![SpecToken::Type(seq![name_tok] + params)], p2))
    } else {
        None
    }
}

/// An optional angle-bracketed generic argument list; absent when any of
/// its parts fails to match.
pub open spec fn generic_params_opt(s: Seq<u8>, pos: int) -> (Seq<SpecToken>, int)
    decreases s.len() - pos, 1int,
{
    match lex1(s, pos, LT_B) {
        Some((lt_tok, q1)) => if moved(s, pos, q1) {
            match type_param(s, q1) {
                Some((tp1, q2)) => if moved(s, q1, q2) {
                    let (rest, q3) = params_rest(s, q2);
                    let q4 = skip_spaces(s, q3);
                    if m1(s, q4, GT_B) {
                        (
                            seq![lt_tok] + tp1 + rest + seq![
                                SpecToken::Text(s.subrange(q3, q4 + 1))
                            ],
                            q4 + 1,
                        )
                    } else {
                        (Seq::empty(), pos)
                    }
                } else {
                    (Seq::empty(), pos)
                },
                None => (Seq::empty(), pos),
            }
        } else {
            (Seq::empty(), pos)
        },
        None => (Seq::empty(), pos),
    }
}

/// Zero or more further `,`-separated generic arguments.
pub open spec fn params_rest(s: Seq<u8>, pos: int) -> (Seq<SpecToken>, int)
    decreases s.len() - pos, 0int,
{
    match lex1(s, pos, COMMA) {
        Some((sep, p1)) => if moved(s, pos, p1) {
            match type_param(s, p1) {
                Some((item, p2)) => if moved(s, p1, p2) {
                    let (rest, p3) = params_rest(s, p2);
                    (seq![sep] + item + rest, p3)
                } else {
                    (Seq::empty(), pos)
                },
                None => (Seq::empty(), pos),
            }
        } else {
            (Seq::empty(), pos)
        },
        None => (Seq::empty(), pos),
    }
}

/// One generic argument: a lifetime, an associated-type binding, or a
/// plain type expression — in that order, so that a lone name before `=`
/// is not taken for a bare type.
pub open spec fn type_param(s: Seq<u8>, pos: int) -> Option<(Seq<SpecToken>, int)>
    decreases s.len() - pos, 7int,
{
    match scan_lifetime(s, pos) {
        Some(e) => Some((seq![SpecToken::Text(s.subrange(pos, e))], e)),
        None => match assoc_type_param(s, pos) {
            Some(r) => Some(r),
            None => type_like(s, pos),
        },
    }
}

/// An associated-type binding: a name, `=`, then a type expression.
pub open spec fn assoc_type_param(s: Seq<u8>, pos: int) -> Option<(Seq<SpecToken>, int)>
    decreases s.len() - pos, 6int,
{
    let e = scan_ident_end(s, pos);
    if e > pos && e <= s.len() {
        match lex1(s, e, EQ_B) {
            Some((eq_tok, q1)) => if moved(s, e, q1) {
                match type_like(s, q1) {
                    Some((ts, q2)) => Some(
                        (seq![SpecToken::AssocType(s.subrange(pos, e)), eq_tok] + ts, q2),
                    ),
                    None => None,
                }
            } else {
                None
            },
            None => None,
        }
    } else {
        None
    }
}

/// One where-clause constraint: a single type, `:`, then `+`-separated
/// bound types.
pub open spec fn single_where_constraint(s: Seq<u8>, pos: int) -> Option<(Seq<SpecToken>, int)> {
    match single_type_like(s, pos) {
        Some((t1, p1)) => match lex1(s, p1, COLON) {
            Some((c, q1)) => match simple_named_type(s, q1) {
                Some((b1, q2)) => {
                    let (rest, q3) = bounds_rest(s, q2);
                    Some((t1 + seq![c] + b1 + rest, q3))
                },
                None => None,
            },
            None => None,
        },
        None => None,
    }
}

/// Zero or more further `,`-separated where-clause constraints.
pub open spec fn constraints_rest(s: Seq<u8>, pos: int) -> (Seq<SpecToken>, int)
    decreases s.len() - pos,
{
    match lex1(s, pos, COMMA) {
        Some((sep, p1)) => if moved(s, pos, p1) {
            match single_where_constraint(s, p1) {
                Some((item, p2)) => if moved(s, p1, p2) {
                    let (rest, p3) = constraints_rest(s, p2);
                    (seq![sep] + item + rest, p3)
                } else {
                    (Seq::empty(), pos)
                },
                None => (Seq::empty(), pos),
            }
        } else {
            (Seq::empty(), pos)
        },
        None => (Seq::empty(), pos),
    }
}

/// A where-clause: the `where` keyword with its surrounding whitespace,
/// then one or more comma-separated constraints.
pub open spec fn where_clause(s: Seq<u8>, pos: int) -> Option<(Seq<SpecToken>, int)> {
    let (sp1, q0) = maybe_spaces(s, pos);
    if m5(s, q0, 119, 104, 101, 114, 101) {  // where
        let (sp2, q1) = maybe_spaces(s, q0 + 5);
        match single_where_constraint(s, q1) {
            Some((c1, p1)) => {
                let (rest, p2) = constraints_rest(s, p1);
                Some((sp1 + seq![SpecToken::Where] + sp2 + c1 + rest, p2))
            },
            None => None,
        }
    } else {
        None
    }
}

/// An optional `->` and return type.
pub open spec fn ret_opt(s: Seq<u8>, pos: int) -> (Seq<SpecToken>, int) {
    match lex2(s, pos, DASH, GT_B) {
        Some((t, q1)) => match single_type_like(s, q1) {
            Some((r, q2)) => (seq![t] + r, q2),
            None => (Seq::empty(), pos),
        },
        None => (Seq::empty(), pos),
    }
}

/// An optional where-clause.
pub open spec fn where_opt(s: Seq<u8>, pos: int) -> (Seq<SpecToken>, int) {
    match where_clause(s, pos) {
        Some((w, p)) => (w, p),
        None => (Seq::empty(), pos),
    }
}

/// Everything of a signature after the name: the parenthesised parameter
/// list, an optional return type, an optional where-clause.
pub open spec fn item_after_name(s: Seq<u8>, pos: int) -> Option<(Seq<SpecToken>, int)> {
    match lex1(s, pos, LPAREN) {
        Some((t1, p1)) => {
            let (ltoks, p2) = nested_type_like_list(s, p1);
            match lex1(s, p2, RPAREN) {
                Some((t2, p3)) => {
                    let (ret, p4) = ret_opt(s, p3);
                    let (wc, p5) = where_opt(s, p4);
                    Some((seq![t1] + ltoks + seq![t2] + ret + wc, p5))
                },
                None => None,
            }
        },
        None => None,
    }
}

/// An optional `=>` and comma-separated associated-type bindings.
pub open spec fn impl_bindings_opt(s: Seq<u8>, pos: int) -> (Seq<SpecToken>, int) {
    match lex2(s, pos, EQ_B, GT_B) {
        Some((t, q1)) => match assoc_type_param(s, q1) {
            Some((a1, q2)) => {
                let (rest, q3) = bindings_rest(s, q2);
                (seq![t] + a1 + rest, q3)
            },
            None => (Seq::empty(), pos),
        },
        None => (Seq::empty(), pos),
    }
}

/// Zero or more further `,`-separated associated-type bindings.
pub open spec fn bindings_rest(s: Seq<u8>, pos: int) -> (Seq<SpecToken>, int)
    decreases s.len() - pos,
{
    match lex1(s, pos, COMMA) {
        Some((sep, p1)) => if moved(s, pos, p1) {
            match assoc_type_param(s, p1) {
                Some((item, p2)) => if moved(s, p1, p2) {
                    let (rest, p3) = bindings_rest(s, p2);
                    (seq![sep] + item + rest, p3)
                } else {
                    (Seq::empty(), pos)
                },
                None => (Seq::empty(), pos),
            }
        } else {
            (Seq::empty(), pos)
        },
        None => (Seq::empty(), pos),
    }
}

/// A bare type parse over the whole input: the single-type rule must
/// consume every byte, and its `Type` wrapping is taken off.
pub open spec fn spec_parse_type(s: Seq<u8>) -> Option<Seq<SpecToken>> {
    match single_type_like_token(s, 0) {
        Some((t, p)) => if p == s.len() && t is Type {
            Some(t->Type_0)
        } else {
            None
        },
        None => None,
    }
}

/// A where-clause parse over the whole input.
pub open spec fn spec_parse_constraints(s: Seq<u8>) -> Option<Seq<SpecToken>> {
    match where_clause(s, 0) {
        Some((w, p)) => if p == s.len() {
            Some(w)
        } else {
            None
        },
        None => None,
    }
}

/// An implementation-header parse over the whole input: a single type,
/// optionally `=>` and associated-type bindings.
pub open spec fn spec_parse_impl(s: Seq<u8>) -> Option<Seq<SpecToken>> {
    match single_type_like(s, 0) {
        Some((t1, p1)) => {
            let (b, p2) = impl_bindings_opt(s, p1);
            if p2 == s.len() {
                Some(t1 + b)
            } else {
                None
            }
        },
        None => None,
    }
}

/// A method-signature parse over the whole input: an optional leading
/// `::` (its absence means the item takes an implicit receiver), a name,
/// then everything after the name. Yields the receiver flag, the name and
/// the token stream.
pub open spec fn spec_parse_item(s: Seq<u8>) -> Option<(bool, Seq<u8>, Seq<SpecToken>)> {
    let has_path = m2(s, 0, COLON, COLON);
    let p0: int = if has_path {
        2
    } else {
        0
    };
    let e = scan_ident_end(s, p0);
    if e > p0 {
        match item_after_name(s, e) {
            Some((toks, p)) => if p == s.len() {
                Some((!has_path, s.subrange(p0, e), toks))
            } else {
                None
            },
            None => None,
        }
    } else {
        None
    }
}

} // verus!
