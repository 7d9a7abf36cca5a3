//! What is declared inside a function, on an input cut short.

use vstd::prelude::*;
use crate::error::Error;
use crate::grammar;
use crate::grammar::{ParseOptions, ParseState};
use crate::handles::acyclic;
use crate::lemmas::cut::closure::lemma_closure_cut;
use crate::lemmas::cut::leaves::{lemma_discriminator_at_end, lemma_discriminator_cut};
use crate::lemmas::cut::name::{lemma_lone_u_name_ends, lemma_name_cut};
use crate::lemmas::cut::type_list::{lemma_type_list_at_end, lemma_type_list_cut};
use crate::lemmas::cut::{cut_of, lemma_cut_input};
use crate::lemmas::handles::closure::lemma_closure;
use crate::lemmas::handles::local::{lemma_local_entity, lemma_local_name, lemma_local_scope};
use crate::lemmas::handles::name::lemma_name;
use crate::lemmas::handles::type_list::lemma_type_list;
use crate::lemmas::leaves::lemma_discriminator;
use crate::model;

verus! {

pub proof fn lemma_local_name_cut(
    input: Seq<u8>,
    k: int,
    st: ParseState,
    depth: nat,
    cfg: ParseOptions,
)
    requires
        0 <= st.pos <= k <= input.len(),
        acyclic(st.subs),
    ensures
        cut_of(
            grammar::parse_local_name(input, st, depth, cfg),
            grammar::parse_local_name(input.take(k), st, depth, cfg),
            k,
        ),
    decreases cfg.max_depth - depth, input.len() - st.pos, 14nat,
{
    reveal(grammar::parse_local_name);
    reveal(grammar::parse_local_scope);
    reveal(grammar::parse_local_entity);
    lemma_cut_input(input, k);
    lemma_local_name(input, st, depth, cfg);
    let cut = input.take(k);
    let behind = st.at(st.pos + 1);
    if st.pos + 1 < input.len() && depth < cfg.max_depth && grammar::parse_local_name(
        input,
        st,
        depth,
        cfg,
    ) is Ok {
        lemma_local_scope(input, behind, depth + 1, cfg);
        if st.pos + 1 <= k {
            lemma_local_scope_cut(input, k, behind, depth + 1, cfg);
        }
        match grammar::parse_local_scope(input, behind, depth + 1, cfg) {
            Ok((_, st1)) => {
                let inside = st1.at(st1.pos + 1);
                lemma_local_entity(input, inside, depth + 1, cfg);
                if st1.pos + 1 <= k {
                    lemma_local_entity_cut(input, k, inside, depth + 1, cfg);
                }
                match grammar::parse_local_entity(input, inside, depth + 1, cfg) {
                    Ok((_, st2)) => {
                        lemma_discriminator(input, st2.pos);
                        if st2.pos <= k {
                            lemma_discriminator_cut(input, k, st2.pos);
                        } else if st1.pos + 1 <= k {
                            match grammar::parse_local_entity(cut, inside, depth + 1, cfg) {
                                Ok((_, at)) => {
                                    lemma_discriminator_at_end(cut, at.pos);
                                },
                                Err(_) => {},
                            }
                        }
                    },
                    Err(_) => {},
                }
            },
            Err(_) => {},
        }
    }
}

pub proof fn lemma_local_scope_cut(
    input: Seq<u8>,
    k: int,
    st: ParseState,
    depth: nat,
    cfg: ParseOptions,
)
    requires
        0 <= st.pos <= k <= input.len(),
        acyclic(st.subs),
    ensures
        cut_of(
            grammar::parse_local_scope(input, st, depth, cfg),
            grammar::parse_local_scope(input.take(k), st, depth, cfg),
            k,
        ),
    decreases cfg.max_depth - depth, input.len() - st.pos, 26nat,
{
    reveal(grammar::parse_local_scope);
    lemma_cut_input(input, k);
    lemma_local_scope(input, st, depth, cfg);
    let cut = input.take(k);
    lemma_name(input, st, depth, cfg);
    lemma_name(cut, st, depth, cfg);
    lemma_name_cut(input, k, st, depth, cfg);
    match grammar::parse_name(input, st, depth, cfg) {
        Ok((_, st1)) => {
            lemma_type_list(input, st1, depth, cfg, Seq::empty());
            if st1.pos <= k {
                lemma_type_list_cut(input, k, st1, depth, cfg, Seq::empty());
            } else {
                match grammar::parse_name(cut, st, depth, cfg) {
                    Ok((_, at)) => {
                        lemma_type_list_at_end(cut, at, depth, cfg, Seq::empty());
                    },
                    Err(_) => {},
                }
            }
        },
        Err(_) => {},
    }
}

pub proof fn lemma_local_entity_cut(
    input: Seq<u8>,
    k: int,
    st: ParseState,
    depth: nat,
    cfg: ParseOptions,
)
    requires
        0 <= st.pos <= k <= input.len(),
        acyclic(st.subs),
    ensures
        cut_of(
            grammar::parse_local_entity(input, st, depth, cfg),
            grammar::parse_local_entity(input.take(k), st, depth, cfg),
            k,
        ),
    decreases cfg.max_depth - depth, input.len() - st.pos, 16nat,
{
    reveal(grammar::parse_local_entity);
    lemma_cut_input(input, k);
    lemma_local_entity(input, st, depth, cfg);
    lemma_closure(input, st, depth, cfg);
    lemma_closure_cut(input, k, st, depth, cfg);
    lemma_name(input, st, depth, cfg);
    lemma_name_cut(input, k, st, depth, cfg);
    if st.pos + 1 == k && input[st.pos] == 'U' as u8 {
        lemma_lone_u_name_ends(input.take(k), st, depth, cfg);
    }
}

/// What a local name names, at the end of the input, is an
/// `UnexpectedEnd`.
pub proof fn lemma_local_entity_at_end(
    input: Seq<u8>,
    st: ParseState,
    depth: nat,
    cfg: ParseOptions,
)
    requires
        st.pos >= input.len(),
    ensures
        grammar::parse_local_entity(input, st, depth, cfg) == Err::<
            (model::LocalEntity, ParseState),
            Error,
        >(Error::UnexpectedEnd),
{
    reveal(grammar::parse_local_entity);
}

} // verus!
