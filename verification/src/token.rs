//! The token model: the closed set of output node kinds, the ordered
//! stream that holds them, their mathematical counterparts, and the
//! rendering function that recovers the original text from a stream.
use vstd::prelude::*;

verus! {

/// The six shapes a range expression can take, selected by which sides
/// of the operator are present and whether the operator is inclusive.
#[derive(Debug, Clone, Copy, PartialEq, Eq)]
pub enum RangeToken {
    RangeFull,
    RangeTo,
    RangeToInclusive,
    RangeFrom,
    Range,
    RangeInclusive,
}

/// Structural markers. `Ref` and `Ptr` carry the text that follows the
/// leading sigil (`&` or `*`) verbatim; the sigil itself is implied by
/// the marker kind. `Named` carries one of the fifteen scalar type names.
#[derive(Debug, PartialEq, Eq)]
pub enum Primitive {
    Ref(Vec<u8>),
    Ptr(Vec<u8>),
    SliceStart,
    SliceEnd,
    TupleStart,
    TupleEnd,
    Unit,
    Named(Vec<u8>),
}

/// One node of the output stream.
#[derive(Debug, PartialEq, Eq)]
pub enum Token {
    /// Verbatim punctuation or whitespace, kept only for reconstruction.
    Text(Vec<u8>),
    /// A user-defined type or trait name.
    Identifier(Vec<u8>),
    /// A name used as an associated-item selector or binding key.
    AssocType(Vec<u8>),
    /// A fully formed type expression, wrapped for nesting.
    Type(TokenStream),
    /// An undifferentiated comma-separated grouping.
    Nested(TokenStream),
    /// A structural marker.
    Primitive(Primitive),
    /// A range operator of one of the six shapes.
    Range(RangeToken),
    /// The literal `where` keyword.
    Where,
}

/// An ordered sequence of tokens; order is significant and the stream is
/// lossless: rendering it reproduces the parsed text byte for byte.
#[derive(Debug, PartialEq, Eq)]
pub struct TokenStream(pub Vec<Token>);

/// Mathematical counterpart of `Primitive`, over `Seq<u8>`.
pub enum SpecPrimitive {
    Ref(Seq<u8>),
    Ptr(Seq<u8>),
    SliceStart,
    SliceEnd,
    TupleStart,
    TupleEnd,
    Unit,
    Named(Seq<u8>),
}

/// Mathematical counterpart of `Token`: nested streams are sequences.
pub enum SpecToken {
    Text(Seq<u8>),
    Identifier(Seq<u8>),
    AssocType(Seq<u8>),
    Type(Seq<SpecToken>),
    Nested(Seq<SpecToken>),
    Primitive(SpecPrimitive),
    Range(RangeToken),
    Where,
}

impl Primitive {
    /// The mathematical value of this marker.
    pub open spec fn deep(self) -> SpecPrimitive {
        match self {
            Primitive::Ref(v) => SpecPrimitive::Ref(v@),
            Primitive::Ptr(v) => SpecPrimitive::Ptr(v@),
            Primitive::SliceStart => SpecPrimitive::SliceStart,
            Primitive::SliceEnd => SpecPrimitive::SliceEnd,
            Primitive::TupleStart => SpecPrimitive::TupleStart,
            Primitive::TupleEnd => SpecPrimitive::TupleEnd,
            Primitive::Unit => SpecPrimitive::Unit,
            Primitive::Named(v) => SpecPrimitive::Named(v@),
        }
    }
}

impl Token {
    /// The mathematical value of this token, nested streams included.
    pub open spec fn deep(self) -> SpecToken
        decreases self,
    {
        match self {
            Token::Text(v) => SpecToken::Text(v@),
            Token::Identifier(v) => SpecToken::Identifier(v@),
            Token::AssocType(v) => SpecToken::AssocType(v@),
            Token::Type(ts) => SpecToken::Type(vec_deep(ts.0@)),
            Token::Nested(ts) => SpecToken::Nested(vec_deep(ts.0@)),
            Token::Primitive(p) => SpecToken::Primitive(p.deep()),
            Token::Range(r) => SpecToken::Range(r),
            Token::Where => SpecToken::Where,
        }
    }
}

/// The mathematical value of a token sequence, element by element.
pub open spec fn vec_deep(s: Seq<Token>) -> Seq<SpecToken>
    decreases s,
{
    if s.len() == 0 {
        Seq::empty()
    } else {
        seq![s[0].deep()] + vec_deep(s.subrange(1, s.len() as int))
    }
}

impl TokenStream {
    /// The mathematical value of this stream.
    pub open spec fn deep(self) -> Seq<SpecToken> {
        vec_deep(self.0@)
    }
}

/// `&`
pub const AMP: u8 = 38;

/// `*`
pub const STAR: u8 = 42;

/// `[`
pub const LBRACK: u8 = 91;

/// `]`
pub const RBRACK: u8 = 93;

/// `(`
pub const LPAREN: u8 = 40;

/// `)`
pub const RPAREN: u8 = 41;

/// `.`
pub const DOT: u8 = 46;

/// `=`
pub const EQ_B: u8 = 61;

/// The raw text a structural marker stands for.
pub open spec fn prim_text(p: SpecPrimitive) -> Seq<u8> {
    match p {
        SpecPrimitive::Ref(x) => seq![AMP] + x,
        SpecPrimitive::Ptr(x) => seq![STAR] + x,
        SpecPrimitive::SliceStart => seq![LBRACK],
        SpecPrimitive::SliceEnd => seq![RBRACK],
        SpecPrimitive::TupleStart => seq![LPAREN],
        SpecPrimitive::TupleEnd => seq![RPAREN],
        SpecPrimitive::Unit => seq![LPAREN, RPAREN],
        SpecPrimitive::Named(n) => n,
    }
}

/// The raw text a range operator stands for.
pub open spec fn range_text(r: RangeToken) -> Seq<u8> {
    match r {
        RangeToken::RangeToInclusive => seq![DOT, DOT, EQ_B],
        RangeToken::RangeInclusive => seq![DOT, DOT, EQ_B],
        _ => seq![DOT, DOT],
    }
}

/// The raw text one token carries, recursively for nested streams.
pub open spec fn token_text(t: SpecToken) -> Seq<u8>
    decreases t,
{
    match t {
        SpecToken::Text(v) => v,
        SpecToken::Identifier(v) => v,
        SpecToken::AssocType(v) => v,
        SpecToken::Type(ts) => stream_text(ts),
        SpecToken::Nested(ts) => stream_text(ts),
        SpecToken::Primitive(p) => prim_text(p),
        SpecToken::Range(r) => range_text(r),
        SpecToken::Where => seq![119u8, 104u8, 101u8, 114u8, 101u8],
    }
}

/// The concatenation of the raw text carried by every token of a stream.
pub open spec fn stream_text(ts: Seq<SpecToken>) -> Seq<u8>
    decreases ts,
{
    if ts.len() == 0 {
        Seq::empty()
    } else {
        token_text(ts[0]) + stream_text(ts.subrange(1, ts.len() as int))
    }
}

/// The mathematical value of a token sequence keeps its length.
pub proof fn lemma_vec_deep_len(s: Seq<Token>)
    ensures
        vec_deep(s).len() == s.len(),
    decreases s.len(),
{
    if s.len() != 0 {
        lemma_vec_deep_len(s.subrange(1, s.len() as int));
    }
}

/// Mathematical token sequences concatenate pointwise.
pub proof fn lemma_vec_deep_concat(a: Seq<Token>, b: Seq<Token>)
    ensures
        vec_deep(a + b) == vec_deep(a) + vec_deep(b),
    decreases a.len(),
{
    if a.len() == 0 {
        assert(a + b =~= b);
        assert(vec_deep(a) + vec_deep(b) =~= vec_deep(b));
    } else {
        lemma_vec_deep_concat(a.subrange(1, a.len() as int), b);
        assert((a + b).subrange(1, (a + b).len() as int) =~= a.subrange(1, a.len() as int) + b);
        assert(vec_deep(a + b) =~= vec_deep(a) + vec_deep(b));
    }
}

/// The mathematical value of a one-token sequence.
pub proof fn lemma_vec_deep_one(t: Token)
    ensures
        vec_deep(seq![t]) == seq![t.deep()],
{
    assert(seq![t].subrange(1, 1) =~= Seq::<Token>::empty());
    assert(seq![t][0] == t);
    assert(vec_deep(Seq::<Token>::empty()) == Seq::<SpecToken>::empty());
    assert(seq![t.deep()] + Seq::<SpecToken>::empty() =~= seq![t.deep()]);
}

/// Rendered text concatenates across stream concatenation.
pub proof fn lemma_stream_text_concat(a: Seq<SpecToken>, b: Seq<SpecToken>)
    ensures
        stream_text(a + b) == stream_text(a) + stream_text(b),
    decreases a.len(),
{
    if a.len() == 0 {
        assert(a + b =~= b);
        assert(stream_text(a) + stream_text(b) =~= stream_text(b));
    } else {
        lemma_stream_text_concat(a.subrange(1, a.len() as int), b);
        assert((a + b).subrange(1, (a + b).len() as int) =~= a.subrange(1, a.len() as int) + b);
        assert(stream_text(a + b) =~= stream_text(a) + stream_text(b));
    }
}

/// A one-token stream renders to that token's own text.
pub proof fn lemma_stream_text_one(t: SpecToken)
    ensures
        stream_text(seq![t]) == token_text(t),
{
    assert(seq![t].subrange(1, 1) =~= Seq::<SpecToken>::empty());
    assert(token_text(t) + stream_text(Seq::<SpecToken>::empty()) =~= token_text(t));
}

/// Adjacent subranges of one sequence concatenate to the enclosing one.
pub proof fn lemma_subrange_concat(s: Seq<u8>, a: int, b: int, c: int)
    requires
        0 <= a <= b <= c <= s.len(),
    ensures
        s.subrange(a, b) + s.subrange(b, c) == s.subrange(a, c),
{
    assert(s.subrange(a, b) + s.subrange(b, c) =~= s.subrange(a, c));
}

} // verus!
