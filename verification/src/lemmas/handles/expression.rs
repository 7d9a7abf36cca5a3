//! The handles of expressions.

use vstd::prelude::*;
use crate::grammar;
use crate::grammar::{ParseOptions, ParseState};
use crate::handles::{acyclic, expression_below, grows};
use crate::lemmas::handles::operands::lemma_operands;
use crate::lemmas::handles::types::lemma_type;
use crate::lemmas::leaves::{lemma_number, lemma_template_param};

verus! {

pub proof fn lemma_expression(input: Seq<u8>, st: ParseState, depth: nat, cfg: ParseOptions)
    requires
        0 <= st.pos,
        acyclic(st.subs),
    ensures
        grammar::parse_expression(input, st, depth, cfg) matches Ok((e, st1)) ==> grows(
            input,
            st,
            st1,
        ) && expression_below(e, st1.subs.len() as int),
    decreases cfg.max_depth - depth, input.len() - st.pos, 40nat,
{
    reveal(grammar::parse_expression);
    let pos = st.pos;
    if pos < input.len() && depth < cfg.max_depth {
        let a = input[pos];
        if a == 'T' as u8 {
            lemma_template_param(input, pos);
        } else if a == 'L' as u8 {
            lemma_type(input, st.at(pos + 1), depth + 1, cfg);
            match grammar::parse_type(input, st.at(pos + 1), depth + 1, cfg) {
                Ok((_, st1)) => {
                    lemma_number(input, st1.pos);
                },
                Err(_) => {},
            }
        } else if pos + 1 < input.len() {
            let b = input[pos + 1];
            let first = st.at(pos + 2);
            if (a == 's' as u8 && b == 't' as u8) || (a == 'c' as u8 && b == 'v' as u8) {
                lemma_type(input, first, depth + 1, cfg);
                match grammar::parse_type(input, first, depth + 1, cfg) {
                    Ok((_, st1)) => {
                        lemma_operands(input, st1, depth + 1, cfg, 1, Seq::empty());
                    },
                    Err(_) => {},
                }
            } else {
                lemma_operands(
                    input,
                    first,
                    depth + 1,
                    cfg,
                    grammar::operand_count(a, b),
                    Seq::empty(),
                );
            }
        }
    }
}

} // verus!
