//! The handles of the types of a function.

use vstd::prelude::*;
use crate::grammar;
use crate::grammar::{ParseOptions, ParseState};
use crate::handles::acyclic;

use crate::ast::TypeHandle;
use crate::handles::types_below;
use crate::lemmas::handles::types::lemma_type;
use crate::parse::extends;

verus! {

pub proof fn lemma_type_list(
    input: Seq<u8>,
    st: ParseState,
    depth: nat,
    cfg: ParseOptions,
    done: Seq<TypeHandle>,
)
    requires
        0 <= st.pos <= input.len(),
        acyclic(st.subs),
        types_below(done, st.subs.len() as int),
    ensures
        grammar::parse_type_list(input, st, depth, cfg, done) matches Ok((types, st1)) ==> st.pos
            <= st1.pos <= input.len() && acyclic(st1.subs) && extends(st1.subs, st.subs)
            && types_below(types, st1.subs.len() as int) && (grammar::starts_type(input, st.pos)
            ==> st.pos < st1.pos),
    decreases cfg.max_depth - depth, input.len() - st.pos, 25nat,
{
    reveal(grammar::parse_type_list);
    if grammar::starts_type(input, st.pos) {
        lemma_type(input, st, depth, cfg);
        match grammar::parse_type(input, st, depth, cfg) {
            Ok((h, st1)) => {
                if grammar::moved_on(input, st.pos, st1) {
                    lemma_type_list(input, st1, depth, cfg, done.push(h));
                }
            },
            Err(_) => {},
        }
    }
}

} // verus!
