//! The handles of names without a scope.

use vstd::prelude::*;
use crate::grammar;
use crate::grammar::{ParseOptions, ParseState};
use crate::handles::{acyclic, grows};

use crate::handles::{operator_below, unqualified_below, unscoped_below};
use crate::lemmas::handles::types::lemma_type;
use crate::lemmas::leaves::{lemma_ctor_dtor_name, lemma_source_name, lemma_unnamed_index};

verus! {

pub proof fn lemma_unscoped_name(input: Seq<u8>, st: ParseState, depth: nat, cfg: ParseOptions)
    requires
        0 <= st.pos,
        acyclic(st.subs),
    ensures
        grammar::parse_unscoped_name(input, st, depth, cfg) matches Ok((name, st1)) ==> grows(
            input,
            st,
            st1,
        ) && unscoped_below(name, st1.subs.len() as int),
    decreases cfg.max_depth - depth, input.len() - st.pos, 12nat,
{
    reveal(grammar::parse_unscoped_name);
    reveal(grammar::parse_unqualified_name);
    if grammar::starts_std_name(input, st.pos) {
        lemma_unqualified_name(input, st.at(st.pos + 2), depth, cfg);
    } else {
        lemma_unqualified_name(input, st, depth, cfg);
    }
}

pub proof fn lemma_unqualified_name(input: Seq<u8>, st: ParseState, depth: nat, cfg: ParseOptions)
    requires
        0 <= st.pos,
        acyclic(st.subs),
    ensures
        grammar::parse_unqualified_name(input, st, depth, cfg) matches Ok((name, st1)) ==> grows(
            input,
            st,
            st1,
        ) && unqualified_below(name, st1.subs.len() as int),
    decreases cfg.max_depth - depth, input.len() - st.pos, 10nat,
{
    reveal(grammar::parse_unqualified_name);
    reveal(grammar::parse_operator_name);
    lemma_source_name(input, st.pos);
    lemma_ctor_dtor_name(input, st.pos);
    lemma_unnamed_index(input, st.pos + 2);
    if st.pos < input.len() && grammar::is_lower(input[st.pos]) {
        lemma_operator_name(input, st, depth, cfg);
    }
}

pub proof fn lemma_operator_name(input: Seq<u8>, st: ParseState, depth: nat, cfg: ParseOptions)
    requires
        0 <= st.pos,
        acyclic(st.subs),
    ensures
        grammar::parse_operator_name(input, st, depth, cfg) matches Ok((name, st1)) ==> grows(
            input,
            st,
            st1,
        ) && operator_below(name, st1.subs.len() as int),
    decreases cfg.max_depth - depth, input.len() - st.pos, 9nat,
{
    reveal(grammar::parse_operator_name);
    lemma_source_name(input, st.pos + 2);
    if depth < cfg.max_depth {
        lemma_type(input, st.at(st.pos + 2), depth + 1, cfg);
    }
}

} // verus!
