//! The types of a function, on an input cut short.

use vstd::prelude::*;
use crate::error::Error;
use crate::grammar;
use crate::grammar::{ParseOptions, ParseState};
use crate::handles::acyclic;
use crate::lemmas::cut::{cut_of, lemma_cut_input};

use crate::ast::TypeHandle;
use crate::handles::types_below;
use crate::lemmas::cut::types::lemma_type_cut;
use crate::lemmas::handles::type_list::lemma_type_list;
use crate::lemmas::handles::types::lemma_type;

verus! {

pub proof fn lemma_type_list_cut(
    input: Seq<u8>,
    k: int,
    st: ParseState,
    depth: nat,
    cfg: ParseOptions,
    done: Seq<TypeHandle>,
)
    requires
        0 <= st.pos <= k <= input.len(),
        acyclic(st.subs),
        types_below(done, st.subs.len() as int),
    ensures
        cut_of(
            grammar::parse_type_list(input, st, depth, cfg, done),
            grammar::parse_type_list(input.take(k), st, depth, cfg, done),
            k,
        ),
    decreases cfg.max_depth - depth, input.len() - st.pos, 25nat,
{
    reveal(grammar::parse_type_list);
    lemma_cut_input(input, k);
    lemma_type_list(input, st, depth, cfg, done);
    let cut = input.take(k);
    if grammar::starts_type(input, st.pos) {
        lemma_type(input, st, depth, cfg);
        lemma_type(cut, st, depth, cfg);
        lemma_type_cut(input, k, st, depth, cfg);
        match grammar::parse_type(input, st, depth, cfg) {
            Ok((h, st1)) => {
                if st1.pos <= k {
                    lemma_type_list_cut(input, k, st1, depth, cfg, done.push(h));
                } else {
                    lemma_type_list(input, st1, depth, cfg, done.push(h));
                    match grammar::parse_type(cut, st, depth, cfg) {
                        Ok((h2, st2)) => {
                            lemma_type_list_at_end(cut, st2, depth, cfg, done.push(h2));
                        },
                        Err(_) => {},
                    }
                }
            },
            Err(_) => {},
        }
    }
}

/// The types at the end of the input are none.
pub proof fn lemma_type_list_at_end(
    input: Seq<u8>,
    st: ParseState,
    depth: nat,
    cfg: ParseOptions,
    done: Seq<TypeHandle>,
)
    requires
        st.pos >= input.len(),
    ensures
        grammar::parse_type_list(input, st, depth, cfg, done) == Ok::<
            (Seq<TypeHandle>, ParseState),
            Error,
        >((done, st)),
{
    reveal(grammar::parse_type_list);
}

} // verus!
