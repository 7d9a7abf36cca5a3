//! Names without a scope, on an input cut short.

use vstd::prelude::*;
use crate::error::Error;
use crate::grammar;
use crate::grammar::{ParseOptions, ParseState};
use crate::handles::acyclic;
use crate::index_str::peek_at;
use crate::lemmas::cut::{cut_of, lemma_cut_input};

use crate::lemmas::cut::leaves::{
    lemma_ctor_dtor_name_cut, lemma_source_name_cut, lemma_unnamed_index_cut,
};
use crate::lemmas::cut::types::lemma_type_cut;
use crate::lemmas::handles::types::lemma_type;
use crate::lemmas::handles::unqualified::{
    lemma_operator_name, lemma_unqualified_name, lemma_unscoped_name,
};
use crate::lemmas::leaves::{lemma_ctor_dtor_name, lemma_source_name, lemma_unnamed_index};

verus! {

/// Of a name in `std` the `St` and the byte behind it have to be there:
/// the `S` alone begins no name.
pub proof fn lemma_unscoped_name_cut(
    input: Seq<u8>,
    k: int,
    st: ParseState,
    depth: nat,
    cfg: ParseOptions,
)
    requires
        0 <= st.pos <= k <= input.len(),
        acyclic(st.subs),
        grammar::starts_std_name(input, st.pos) ==> st.pos + 2 < k,
    ensures
        cut_of(
            grammar::parse_unscoped_name(input, st, depth, cfg),
            grammar::parse_unscoped_name(input.take(k), st, depth, cfg),
            k,
        ),
    decreases cfg.max_depth - depth, input.len() - st.pos, 12nat,
{
    reveal(grammar::parse_unscoped_name);
    reveal(grammar::parse_unqualified_name);
    lemma_cut_input(input, k);
    lemma_unscoped_name(input, st, depth, cfg);
    if grammar::starts_std_name(input, st.pos) {
        lemma_unqualified_name_cut(input, k, st.at(st.pos + 2), depth, cfg);
    } else {
        lemma_unqualified_name_cut(input, k, st, depth, cfg);
    }
}

pub proof fn lemma_unqualified_name_cut(
    input: Seq<u8>,
    k: int,
    st: ParseState,
    depth: nat,
    cfg: ParseOptions,
)
    requires
        0 <= st.pos <= k <= input.len(),
        acyclic(st.subs),
    ensures
        cut_of(
            grammar::parse_unqualified_name(input, st, depth, cfg),
            grammar::parse_unqualified_name(input.take(k), st, depth, cfg),
            k,
        ),
    decreases cfg.max_depth - depth, input.len() - st.pos, 10nat,
{
    reveal(grammar::parse_unqualified_name);
    reveal(grammar::parse_operator_name);
    lemma_cut_input(input, k);
    lemma_unqualified_name(input, st, depth, cfg);
    lemma_source_name(input, st.pos);
    lemma_source_name_cut(input, k, st.pos);
    lemma_ctor_dtor_name(input, st.pos);
    lemma_ctor_dtor_name_cut(input, k, st.pos);
    lemma_unnamed_index(input, st.pos + 2);
    if st.pos + 2 <= k {
        lemma_unnamed_index_cut(input, k, st.pos + 2);
    }
    if st.pos < k && grammar::is_lower(input[st.pos]) {
        lemma_operator_name_cut(input, k, st, depth, cfg);
    }
}

pub proof fn lemma_operator_name_cut(
    input: Seq<u8>,
    k: int,
    st: ParseState,
    depth: nat,
    cfg: ParseOptions,
)
    requires
        0 <= st.pos <= k <= input.len(),
        acyclic(st.subs),
    ensures
        cut_of(
            grammar::parse_operator_name(input, st, depth, cfg),
            grammar::parse_operator_name(input.take(k), st, depth, cfg),
            k,
        ),
    decreases cfg.max_depth - depth, input.len() - st.pos, 9nat,
{
    reveal(grammar::parse_operator_name);
    lemma_cut_input(input, k);
    lemma_operator_name(input, st, depth, cfg);
    lemma_source_name(input, st.pos + 2);
    if depth < cfg.max_depth {
        lemma_type(input, st.at(st.pos + 2), depth + 1, cfg);
    }
    if st.pos + 2 <= k {
        lemma_source_name_cut(input, k, st.pos + 2);
        if depth < cfg.max_depth {
            lemma_type_cut(input, k, st.at(st.pos + 2), depth + 1, cfg);
        }
    }
}

/// A `U` with nothing behind it is an `UnexpectedEnd`.
pub proof fn lemma_lone_u_ends(input: Seq<u8>, st: ParseState, depth: nat, cfg: ParseOptions)
    requires
        peek_at(input, st.pos) == Some('U' as u8),
        st.pos + 1 >= input.len(),
    ensures
        grammar::parse_unqualified_name(input, st, depth, cfg) == Err::<
            (crate::ast::UnqualifiedName, ParseState),
            Error,
        >(Error::UnexpectedEnd),
{
    reveal(grammar::parse_unqualified_name);
}

/// A `U` with nothing behind it is an `UnexpectedEnd` as an unscoped name
/// too.
pub proof fn lemma_lone_u_unscoped_ends(
    input: Seq<u8>,
    st: ParseState,
    depth: nat,
    cfg: ParseOptions,
)
    requires
        peek_at(input, st.pos) == Some('U' as u8),
        st.pos + 1 >= input.len(),
    ensures
        grammar::parse_unscoped_name(input, st, depth, cfg) == Err::<
            (crate::ast::UnscopedName, ParseState),
            Error,
        >(Error::UnexpectedEnd),
{
    reveal(grammar::parse_unscoped_name);
    reveal(grammar::parse_unqualified_name);
    lemma_lone_u_ends(input, st, depth, cfg);
}

/// A name in `std` ends behind the `St` and one byte more.
pub proof fn lemma_std_name_is_long(input: Seq<u8>, st: ParseState, depth: nat, cfg: ParseOptions)
    requires
        0 <= st.pos,
        acyclic(st.subs),
        grammar::starts_std_name(input, st.pos),
    ensures
        grammar::parse_unscoped_name(input, st, depth, cfg) matches Ok((_, st1)) ==> st.pos + 2
            < st1.pos,
{
    reveal(grammar::parse_unscoped_name);
    reveal(grammar::parse_unqualified_name);
    lemma_unqualified_name(input, st.at(st.pos + 2), depth, cfg);
}

} // verus!
