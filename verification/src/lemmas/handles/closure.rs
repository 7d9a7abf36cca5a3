//! The handles of the types of lambda expressions.

use vstd::prelude::*;
use crate::grammar;
use crate::grammar::{ParseOptions, ParseState};
use crate::handles::{acyclic, grows, types_below};
use crate::lemmas::handles::type_list::lemma_type_list;
use crate::lemmas::leaves::lemma_unnamed_index;

verus! {

pub proof fn lemma_closure(input: Seq<u8>, st: ParseState, depth: nat, cfg: ParseOptions)
    requires
        0 <= st.pos,
        acyclic(st.subs),
    ensures
        grammar::parse_closure(input, st, depth, cfg) matches Ok(((types, _), st1)) ==> grows(
            input,
            st,
            st1,
        ) && types_below(types, st1.subs.len() as int) && st.pos + 3 < st1.pos,
    decreases cfg.max_depth - depth, input.len() - st.pos, 10nat,
{
    reveal(grammar::parse_closure);
    let behind = st.at(st.pos + 2);
    if st.pos + 2 < input.len() && depth < cfg.max_depth {
        lemma_type_list(input, behind, depth + 1, cfg, Seq::empty());
        match grammar::parse_type_list(input, behind, depth + 1, cfg, Seq::empty()) {
            Ok((_, st1)) => {
                lemma_unnamed_index(input, st1.pos + 1);
            },
            Err(_) => {},
        }
    }
}

} // verus!
