//! The handles of the operands of an operator.

use vstd::prelude::*;
use crate::ast::Expression;
use crate::grammar;
use crate::grammar::{ParseOptions, ParseState};
use crate::handles::{acyclic, expressions_below, lemma_expressions_below_more};
use crate::lemmas::handles::expression::lemma_expression;
use crate::parse::extends;

verus! {

/// The operands that are accepted are as many as were asked for.
pub proof fn lemma_operands(
    input: Seq<u8>,
    st: ParseState,
    depth: nat,
    cfg: ParseOptions,
    count: nat,
    done: Seq<Expression>,
)
    requires
        0 <= st.pos <= input.len(),
        acyclic(st.subs),
        expressions_below(done, st.subs.len() as int),
    ensures
        grammar::parse_operands(input, st, depth, cfg, count, done) matches Ok((operands, st1))
            ==> st.pos <= st1.pos <= input.len() && acyclic(st1.subs) && extends(
            st1.subs,
            st.subs,
        ) && expressions_below(operands, st1.subs.len() as int) && operands.len() == done.len()
            + count && (count > 0 ==> st.pos < st1.pos) && (forall|i: int|
            0 <= i < done.len() ==> operands[i] == done[i]),
    decreases cfg.max_depth - depth, input.len() - st.pos, 41nat,
{
    reveal(grammar::parse_operands);
    if count > 0 {
        lemma_expression(input, st, depth, cfg);
        match grammar::parse_expression(input, st, depth, cfg) {
            Ok((x, st1)) => {
                if grammar::moved_on(input, st.pos, st1) {
                    lemma_expressions_below_more(
                        done,
                        st.subs.len() as int,
                        st1.subs.len() as int,
                    );
                    lemma_operands(input, st1, depth, cfg, (count - 1) as nat, done.push(x));
                    assert(done.push(x)[done.len() as int] == x);
                }
            },
            Err(_) => {},
        }
    }
}

} // verus!
