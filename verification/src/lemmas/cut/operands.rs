//! The operands of an operator, on an input cut short.

use vstd::prelude::*;
use crate::ast::Expression;
use crate::error::Error;
use crate::grammar;
use crate::grammar::{ParseOptions, ParseState};
use crate::handles::{acyclic, expressions_below, lemma_expressions_below_more};
use crate::lemmas::cut::expression::{lemma_expression_at_end, lemma_expression_cut};
use crate::lemmas::cut::{cut_of, lemma_cut_input};
use crate::lemmas::handles::expression::lemma_expression;
use crate::lemmas::handles::operands::lemma_operands;

verus! {

/// At the end of the input no operands are there: asking for none gives
/// none, and asking for more is an `UnexpectedEnd`.
pub proof fn lemma_operands_at_end(
    input: Seq<u8>,
    st: ParseState,
    depth: nat,
    cfg: ParseOptions,
    count: nat,
    done: Seq<Expression>,
)
    requires
        st.pos >= input.len(),
    ensures
        grammar::parse_operands(input, st, depth, cfg, count, done) == if count == 0 {
            Ok::<(Seq<Expression>, ParseState), Error>((done, st))
        } else {
            Err::<(Seq<Expression>, ParseState), Error>(Error::UnexpectedEnd)
        },
{
    reveal(grammar::parse_operands);
    lemma_expression_at_end(input, st, depth, cfg);
}

pub proof fn lemma_operands_cut(
    input: Seq<u8>,
    k: int,
    st: ParseState,
    depth: nat,
    cfg: ParseOptions,
    count: nat,
    done: Seq<Expression>,
)
    requires
        0 <= st.pos <= k <= input.len(),
        acyclic(st.subs),
        expressions_below(done, st.subs.len() as int),
    ensures
        cut_of(
            grammar::parse_operands(input, st, depth, cfg, count, done),
            grammar::parse_operands(input.take(k), st, depth, cfg, count, done),
            k,
        ),
    decreases cfg.max_depth - depth, input.len() - st.pos, 41nat,
{
    reveal(grammar::parse_operands);
    lemma_cut_input(input, k);
    lemma_operands(input, st, depth, cfg, count, done);
    let cut = input.take(k);
    if count > 0 {
        lemma_expression(input, st, depth, cfg);
        lemma_expression(cut, st, depth, cfg);
        lemma_expression_cut(input, k, st, depth, cfg);
        match grammar::parse_expression(input, st, depth, cfg) {
            Ok((x, st1)) => {
                if grammar::moved_on(input, st.pos, st1) {
                    lemma_expressions_below_more(
                        done,
                        st.subs.len() as int,
                        st1.subs.len() as int,
                    );
                    lemma_operands(input, st1, depth, cfg, (count - 1) as nat, done.push(x));
                    if st1.pos <= k {
                        lemma_operands_cut(
                            input,
                            k,
                            st1,
                            depth,
                            cfg,
                            (count - 1) as nat,
                            done.push(x),
                        );
                    } else {
                        match grammar::parse_expression(cut, st, depth, cfg) {
                            Ok((x2, at)) => {
                                lemma_operands_at_end(
                                    cut,
                                    at,
                                    depth,
                                    cfg,
                                    (count - 1) as nat,
                                    done.push(x2),
                                );
                            },
                            Err(_) => {},
                        }
                    }
                }
            },
            Err(_) => {},
        }
    }
}

} // verus!
