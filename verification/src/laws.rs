//! Properties of the parser that relate whole runs to one another. The
//! round-trip and whole-input-consumption guarantees are part of each
//! entry point's own contract; the laws here state what follows about
//! repeated runs, and a structural guarantee of the grammar itself.
use vstd::prelude::*;

use crate::grammar::single_type_like_token;
use crate::grammar::spec_parse_constraints;
use crate::grammar::spec_parse_impl;
use crate::grammar::spec_parse_item;
use crate::grammar::spec_parse_type;
use crate::token::SpecToken;

verus! {

/// Determinism of the bare type parse: each run's result is pinned by
/// the contract to `spec_parse_type` of the input alone, so two runs on
/// the same input yield structurally identical token streams.
pub proof fn lemma_parse_type_deterministic(
    s: Seq<u8>,
    r1: Option<Seq<SpecToken>>,
    r2: Option<Seq<SpecToken>>,
)
    requires
        r1 == spec_parse_type(s),
        r2 == spec_parse_type(s),
    ensures
        r1 == r2,
{
}

/// Determinism of the where-clause parse, as above.
pub proof fn lemma_parse_constraints_deterministic(
    s: Seq<u8>,
    r1: Option<Seq<SpecToken>>,
    r2: Option<Seq<SpecToken>>,
)
    requires
        r1 == spec_parse_constraints(s),
        r2 == spec_parse_constraints(s),
    ensures
        r1 == r2,
{
}

/// Determinism of the implementation-header parse (shared by both of
/// its entry points), as above.
pub proof fn lemma_parse_impl_deterministic(
    s: Seq<u8>,
    r1: Option<Seq<SpecToken>>,
    r2: Option<Seq<SpecToken>>,
)
    requires
        r1 == spec_parse_impl(s),
        r2 == spec_parse_impl(s),
    ensures
        r1 == r2,
{
}

/// Determinism of the signature parse, as above.
pub proof fn lemma_parse_item_deterministic(
    s: Seq<u8>,
    r1: Option<(bool, Seq<u8>, Seq<SpecToken>)>,
    r2: Option<(bool, Seq<u8>, Seq<SpecToken>)>,
)
    requires
        r1 == spec_parse_item(s),
        r2 == spec_parse_item(s),
    ensures
        r1 == r2,
{
}

/// Every successful single-type production is one `Type` token: the
/// normalisation guarantees it by construction, so the bare type parse
/// never meets anything else to unwrap.
pub proof fn lemma_single_type_is_type(s: Seq<u8>, pos: int)
    ensures
        match single_type_like_token(s, pos) {
            Some((t, _)) => t is Type,
            None => true,
        },
{
}

} // verus!
