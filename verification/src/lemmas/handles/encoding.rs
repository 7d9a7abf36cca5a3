//! The handles of a whole mangled name.

use vstd::prelude::*;
use crate::grammar;
use crate::grammar::{ParseOptions, ParseState};
use crate::handles::{acyclic, grows};

use crate::handles::{
    encoding_below, mangled_name_below, lemma_name_below_more, name_below, special_name_below,
    types_below,
};
use crate::lemmas::handles::name::lemma_name;
use crate::lemmas::handles::type_list::lemma_type_list;
use crate::lemmas::handles::types::lemma_type;
use crate::lemmas::leaves::{lemma_array_dimension, lemma_call_offset, lemma_suffix_end};

verus! {

pub proof fn lemma_function(input: Seq<u8>, st: ParseState, cfg: ParseOptions)
    requires
        0 <= st.pos,
        acyclic(st.subs),
    ensures
        grammar::parse_function(input, st, cfg) matches Ok(((name, types), st1)) ==> grows(
            input,
            st,
            st1,
        ) && name_below(name, st1.subs.len() as int) && types_below(types, st1.subs.len() as int),
{
    reveal(grammar::parse_function);
    lemma_name(input, st, 0, cfg);
    match grammar::parse_name(input, st, 0, cfg) {
        Ok((name, st1)) => {
            lemma_type_list(input, st1, 0, cfg, Seq::empty());
            match grammar::parse_type_list(input, st1, 0, cfg, Seq::empty()) {
                Ok((_, st2)) => {
                    lemma_name_below_more(name, st1.subs.len() as int, st2.subs.len() as int);
                },
                Err(_) => {},
            }
        },
        Err(_) => {},
    }
}

pub proof fn lemma_special_name(input: Seq<u8>, st: ParseState, cfg: ParseOptions)
    requires
        0 <= st.pos,
        acyclic(st.subs),
    ensures
        grammar::parse_special_name(input, st, cfg) matches Ok((special, st1)) ==> grows(
            input,
            st,
            st1,
        ) && special_name_below(special, st1.subs.len() as int),
{
    reveal(grammar::parse_special_name);
    reveal(grammar::parse_function);
    lemma_type(input, st.at(st.pos + 2), 0, cfg);
    lemma_name(input, st.at(st.pos + 2), 0, cfg);
    lemma_call_offset(input, st.pos + 1);
    match grammar::parse_call_offset(input, st.pos + 1) {
        Ok((_, p1)) => {
            lemma_function(input, st.at(p1), cfg);
        },
        Err(_) => {},
    }
    lemma_call_offset(input, st.pos + 2);
    match grammar::parse_call_offset(input, st.pos + 2) {
        Ok((_, p1)) => {
            lemma_call_offset(input, p1);
            match grammar::parse_call_offset(input, p1) {
                Ok((_, p2)) => {
                    lemma_function(input, st.at(p2), cfg);
                },
                Err(_) => {},
            }
        },
        Err(_) => {},
    }
    match grammar::parse_type(input, st.at(st.pos + 2), 0, cfg) {
        Ok((_, st1)) => {
            lemma_array_dimension(input, st1.pos);
            match grammar::parse_array_dimension(input, st1.pos) {
                Ok((_, p2)) => {
                    lemma_type(input, st1.at(p2), 0, cfg);
                },
                Err(_) => {},
            }
        },
        Err(_) => {},
    }
}

pub proof fn lemma_encoding(input: Seq<u8>, st: ParseState, cfg: ParseOptions)
    requires
        0 <= st.pos,
        acyclic(st.subs),
    ensures
        grammar::parse_encoding(input, st, cfg) matches Ok((encoding, st1)) ==> grows(
            input,
            st,
            st1,
        ) && encoding_below(encoding, st1.subs.len() as int),
{
    reveal(grammar::parse_encoding);
    reveal(grammar::parse_special_name);
    lemma_special_name(input, st, cfg);
    lemma_name(input, st, 0, cfg);
    match grammar::parse_name(input, st, 0, cfg) {
        Ok((name, st1)) => {
            lemma_type_list(input, st1, 0, cfg, Seq::empty());
            match grammar::parse_type_list(input, st1, 0, cfg, Seq::empty()) {
                Ok((_, st2)) => {
                    lemma_name_below_more(name, st1.subs.len() as int, st2.subs.len() as int);
                },
                Err(_) => {},
            }
        },
        Err(_) => {},
    }
}

/// In a mangled name that the grammar accepts, every handle of the tree is
/// the index of an entry of the table, and every entry of the table points
/// at earlier entries only.
pub proof fn lemma_mangled_name(input: Seq<u8>, cfg: ParseOptions)
    ensures
        grammar::parse_mangled_name(input, cfg) matches Ok((name, st)) ==> acyclic(st.subs)
            && mangled_name_below(name, st.subs.len() as int) && 2 <= st.pos <= input.len(),
        grammar::parse_whole(input, cfg) matches Ok((name, st)) ==> acyclic(st.subs)
            && mangled_name_below(name, st.subs.len() as int) && st.pos == input.len(),
{
    reveal(grammar::parse_mangled_name);
    reveal(grammar::parse_whole);
    reveal(grammar::parse_encoding);
    let start = grammar::mangled_start(input, cfg);
    let st = ParseState { pos: start + 2, subs: Seq::empty() };
    lemma_encoding(input, st, cfg);
    match grammar::parse_encoding(input, st, cfg) {
        Ok((_, st1)) => {
            if st1.pos < input.len() {
                lemma_suffix_end(input, st1.pos + 1);
            }
        },
        Err(_) => {},
    }
}

} // verus!
