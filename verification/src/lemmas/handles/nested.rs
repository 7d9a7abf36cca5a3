//! The handles of nested names.

use vstd::prelude::*;
use crate::grammar;
use crate::grammar::{ParseOptions, ParseState};
use crate::handles::{acyclic, grows};

use crate::handles::prefix_below;
use crate::lemmas::handles::prefix::lemma_prefix;

verus! {

pub proof fn lemma_nested_name(input: Seq<u8>, st: ParseState, depth: nat, cfg: ParseOptions)
    requires
        0 <= st.pos,
        acyclic(st.subs),
    ensures
        grammar::parse_nested_name(input, st, depth, cfg) matches Ok((nested, st1)) ==> grows(
            input,
            st,
            st1,
        ) && prefix_below(nested.name, st1.subs.len() as int),
    decreases cfg.max_depth - depth, input.len() - st.pos, 14nat,
{
    reveal(grammar::parse_nested_name);
    let pos = st.pos;
    if pos < input.len() {
        let (_, p1) = grammar::parse_cv_qualifiers(input, pos + 1);
        let (_, p2) = grammar::parse_ref_qualifier(input, p1);
        lemma_prefix(input, st.at(p2), depth, cfg, None);
    }
}

} // verus!
