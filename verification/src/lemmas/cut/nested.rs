//! Nested names, on an input cut short.

use vstd::prelude::*;
use crate::grammar;
use crate::grammar::{ParseOptions, ParseState};
use crate::handles::acyclic;
use crate::lemmas::cut::{cut_of, lemma_cut_input};

use crate::lemmas::cut::prefix::{lemma_prefix_at_end, lemma_prefix_cut};
use crate::lemmas::handles::nested::lemma_nested_name;
use crate::lemmas::handles::prefix::lemma_prefix;

verus! {

pub proof fn lemma_nested_name_cut(
    input: Seq<u8>,
    k: int,
    st: ParseState,
    depth: nat,
    cfg: ParseOptions,
)
    requires
        0 <= st.pos <= k <= input.len(),
        acyclic(st.subs),
    ensures
        cut_of(
            grammar::parse_nested_name(input, st, depth, cfg),
            grammar::parse_nested_name(input.take(k), st, depth, cfg),
            k,
        ),
    decreases cfg.max_depth - depth, input.len() - st.pos, 14nat,
{
    reveal(grammar::parse_nested_name);
    lemma_cut_input(input, k);
    lemma_nested_name(input, st, depth, cfg);
    let cut = input.take(k);
    let pos = st.pos;
    if pos < k && grammar::parse_nested_name(input, st, depth, cfg) is Ok {
        let (_, p1) = grammar::parse_cv_qualifiers(input, pos + 1);
        let (_, p2) = grammar::parse_ref_qualifier(input, p1);
        let (_, q1) = grammar::parse_cv_qualifiers(cut, pos + 1);
        let (_, q2) = grammar::parse_ref_qualifier(cut, q1);
        lemma_prefix(input, st.at(p2), depth, cfg, None);
        if p2 <= k {
            lemma_prefix_cut(input, k, st.at(p2), depth, cfg, None);
        } else {
            lemma_prefix_at_end(cut, st.at(q2), depth, cfg, None);
        }
    }
}

} // verus!
