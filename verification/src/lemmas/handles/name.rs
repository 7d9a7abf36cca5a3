//! The handles of names.

use vstd::prelude::*;
use crate::grammar;
use crate::grammar::{ParseOptions, ParseState};
use crate::handles::{acyclic, grows};

use crate::handles::name_below;
use crate::lemmas::handles::local::lemma_local_name;
use crate::lemmas::handles::nested::lemma_nested_name;
use crate::lemmas::handles::template_args::lemma_template_args;
use crate::lemmas::handles::unqualified::lemma_unscoped_name;
use crate::lemmas::leaves::lemma_substitution;
use crate::model;

verus! {

pub proof fn lemma_name(input: Seq<u8>, st: ParseState, depth: nat, cfg: ParseOptions)
    requires
        0 <= st.pos,
        acyclic(st.subs),
    ensures
        grammar::parse_name(input, st, depth, cfg) matches Ok((name, st1)) ==> grows(input, st, st1)
            && name_below(name, st1.subs.len() as int),
    decreases cfg.max_depth - depth, input.len() - st.pos, 15nat,
{
    reveal(grammar::parse_name);
    let pos = st.pos;
    if pos < input.len() {
        let b = input[pos];
        if b == 'N' as u8 {
            lemma_nested_name(input, st, depth, cfg);
        } else if b == 'Z' as u8 {
            lemma_local_name(input, st, depth, cfg);
        } else if b == 'S' as u8 && !grammar::starts_std_name(input, pos) {
            lemma_substitution(input, pos, st.subs.len());
            match grammar::parse_substitution(input, pos, st.subs.len()) {
                Ok((_, p1)) => {
                    if depth < cfg.max_depth {
                        lemma_template_args(input, st.at(p1), depth + 1, cfg);
                    }
                },
                Err(_) => {},
            }
        } else {
            lemma_unscoped_name(input, st, depth, cfg);
            match grammar::parse_unscoped_name(input, st, depth, cfg) {
                Ok((name, st1)) => {
                    if depth < cfg.max_depth {
                        lemma_template_args(
                            input,
                            st1.insert(model::Substitutable::UnscopedTemplateName(name)),
                            depth + 1,
                            cfg,
                        );
                    }
                },
                Err(_) => {},
            }
        }
    }
}

} // verus!
