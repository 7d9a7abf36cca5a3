//! The handles of what is declared inside a function.

use vstd::prelude::*;
use crate::grammar;
use crate::grammar::{ParseOptions, ParseState};
use crate::handles::{
    acyclic, grows, lemma_name_below_more, local_entity_below, local_name_below, name_below,
    types_below,
};
use crate::lemmas::handles::closure::lemma_closure;
use crate::lemmas::handles::name::lemma_name;
use crate::lemmas::handles::type_list::lemma_type_list;
use crate::lemmas::leaves::lemma_discriminator;

verus! {

pub proof fn lemma_local_name(input: Seq<u8>, st: ParseState, depth: nat, cfg: ParseOptions)
    requires
        0 <= st.pos,
        acyclic(st.subs),
    ensures
        grammar::parse_local_name(input, st, depth, cfg) matches Ok((local, st1)) ==> grows(
            input,
            st,
            st1,
        ) && local_name_below(local, st1.subs.len() as int),
    decreases cfg.max_depth - depth, input.len() - st.pos, 14nat,
{
    reveal(grammar::parse_local_name);
    reveal(grammar::parse_local_scope);
    reveal(grammar::parse_local_entity);
    if st.pos + 1 < input.len() && depth < cfg.max_depth {
        lemma_local_scope(input, st.at(st.pos + 1), depth + 1, cfg);
        match grammar::parse_local_scope(input, st.at(st.pos + 1), depth + 1, cfg) {
            Ok(((name, _), st1)) => {
                lemma_local_entity(input, st1.at(st1.pos + 1), depth + 1, cfg);
                match grammar::parse_local_entity(input, st1.at(st1.pos + 1), depth + 1, cfg) {
                    Ok((_, st2)) => {
                        lemma_discriminator(input, st2.pos);
                        lemma_name_below_more(name, st1.subs.len() as int, st2.subs.len() as int);
                    },
                    Err(_) => {},
                }
            },
            Err(_) => {},
        }
    }
}

pub proof fn lemma_local_scope(input: Seq<u8>, st: ParseState, depth: nat, cfg: ParseOptions)
    requires
        0 <= st.pos,
        acyclic(st.subs),
    ensures
        grammar::parse_local_scope(input, st, depth, cfg) matches Ok(((name, types), st1))
            ==> grows(input, st, st1) && name_below(name, st1.subs.len() as int) && (
        types matches Some(list) ==> types_below(list, st1.subs.len() as int)),
    decreases cfg.max_depth - depth, input.len() - st.pos, 26nat,
{
    reveal(grammar::parse_local_scope);
    lemma_name(input, st, depth, cfg);
    match grammar::parse_name(input, st, depth, cfg) {
        Ok((name, st1)) => {
            if grammar::moved_on(input, st.pos, st1) {
                lemma_type_list(input, st1, depth, cfg, Seq::empty());
                match grammar::parse_type_list(input, st1, depth, cfg, Seq::empty()) {
                    Ok((_, st2)) => {
                        lemma_name_below_more(name, st1.subs.len() as int, st2.subs.len() as int);
                    },
                    Err(_) => {},
                }
            }
        },
        Err(_) => {},
    }
}

pub proof fn lemma_local_entity(input: Seq<u8>, st: ParseState, depth: nat, cfg: ParseOptions)
    requires
        0 <= st.pos,
        acyclic(st.subs),
    ensures
        grammar::parse_local_entity(input, st, depth, cfg) matches Ok((entity, st1)) ==> grows(
            input,
            st,
            st1,
        ) && local_entity_below(entity, st1.subs.len() as int),
    decreases cfg.max_depth - depth, input.len() - st.pos, 16nat,
{
    reveal(grammar::parse_local_entity);
    lemma_closure(input, st, depth, cfg);
    lemma_name(input, st, depth, cfg);
}

} // verus!
