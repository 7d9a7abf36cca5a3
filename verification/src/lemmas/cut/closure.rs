//! The types of lambda expressions, on an input cut short.

use vstd::prelude::*;
use crate::grammar;
use crate::grammar::{ParseOptions, ParseState};
use crate::handles::acyclic;
use crate::lemmas::cut::leaves::lemma_unnamed_index_cut;
use crate::lemmas::cut::type_list::lemma_type_list_cut;
use crate::lemmas::cut::{cut_of, lemma_cut_input};
use crate::lemmas::handles::closure::lemma_closure;
use crate::lemmas::handles::type_list::lemma_type_list;
use crate::lemmas::leaves::lemma_unnamed_index;

verus! {

pub proof fn lemma_closure_cut(input: Seq<u8>, k: int, st: ParseState, depth: nat, cfg: ParseOptions)
    requires
        0 <= st.pos <= k <= input.len(),
        acyclic(st.subs),
    ensures
        cut_of(
            grammar::parse_closure(input, st, depth, cfg),
            grammar::parse_closure(input.take(k), st, depth, cfg),
            k,
        ),
    decreases cfg.max_depth - depth, input.len() - st.pos, 10nat,
{
    reveal(grammar::parse_closure);
    lemma_cut_input(input, k);
    lemma_closure(input, st, depth, cfg);
    let behind = st.at(st.pos + 2);
    if st.pos + 2 < k && depth < cfg.max_depth && grammar::parse_closure(input, st, depth, cfg) is Ok {
        lemma_type_list(input, behind, depth + 1, cfg, Seq::empty());
        lemma_type_list_cut(input, k, behind, depth + 1, cfg, Seq::empty());
        match grammar::parse_type_list(input, behind, depth + 1, cfg, Seq::empty()) {
            Ok((_, st1)) => {
                lemma_unnamed_index(input, st1.pos + 1);
                if st1.pos + 1 <= k {
                    lemma_unnamed_index_cut(input, k, st1.pos + 1);
                }
            },
            Err(_) => {},
        }
    }
}

} // verus!
