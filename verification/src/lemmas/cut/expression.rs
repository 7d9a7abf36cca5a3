//! Expressions, on an input cut short.

use vstd::prelude::*;
use crate::ast::Expression;
use crate::error::Error;
use crate::grammar;
use crate::grammar::{ParseOptions, ParseState};
use crate::handles::acyclic;
use crate::lemmas::cut::leaves::{lemma_number_cut, lemma_template_param_cut};
use crate::lemmas::cut::operands::{lemma_operands_at_end, lemma_operands_cut};
use crate::lemmas::cut::types::lemma_type_cut;
use crate::lemmas::cut::{cut_of, lemma_cut_input};
use crate::lemmas::handles::expression::lemma_expression;
use crate::lemmas::handles::operands::lemma_operands;
use crate::lemmas::handles::types::lemma_type;
use crate::lemmas::leaves::{lemma_number, lemma_template_param};

verus! {

/// An expression at the end of the input is an `UnexpectedEnd`.
pub proof fn lemma_expression_at_end(input: Seq<u8>, st: ParseState, depth: nat, cfg: ParseOptions)
    requires
        st.pos >= input.len(),
    ensures
        grammar::parse_expression(input, st, depth, cfg) == Err::<(Expression, ParseState), Error>(
            Error::UnexpectedEnd,
        ),
{
    reveal(grammar::parse_expression);
}

pub proof fn lemma_expression_cut(
    input: Seq<u8>,
    k: int,
    st: ParseState,
    depth: nat,
    cfg: ParseOptions,
)
    requires
        0 <= st.pos <= k <= input.len(),
        acyclic(st.subs),
    ensures
        cut_of(
            grammar::parse_expression(input, st, depth, cfg),
            grammar::parse_expression(input.take(k), st, depth, cfg),
            k,
        ),
    decreases cfg.max_depth - depth, input.len() - st.pos, 40nat,
{
    reveal(grammar::parse_expression);
    lemma_cut_input(input, k);
    lemma_expression(input, st, depth, cfg);
    let cut = input.take(k);
    let pos = st.pos;
    if pos < k && depth < cfg.max_depth && grammar::parse_expression(input, st, depth, cfg) is Ok {
        let a = input[pos];
        let first = st.at(pos + 2);
        if a == 'T' as u8 {
            lemma_template_param(input, pos);
            lemma_template_param_cut(input, k, pos);
        } else if a == 'L' as u8 {
            let literal = st.at(pos + 1);
            lemma_type(input, literal, depth + 1, cfg);
            lemma_type_cut(input, k, literal, depth + 1, cfg);
            match grammar::parse_type(input, literal, depth + 1, cfg) {
                Ok((_, st1)) => {
                    lemma_number(input, st1.pos);
                    if st1.pos <= k {
                        lemma_number_cut(input, k, st1.pos);
                    }
                },
                Err(_) => {},
            }
        } else {
            let b = input[pos + 1];
            if (a == 's' as u8 && b == 't' as u8) || (a == 'c' as u8 && b == 'v' as u8) {
                lemma_type(input, first, depth + 1, cfg);
                if pos + 2 <= k {
                    lemma_type_cut(input, k, first, depth + 1, cfg);
                }
                match grammar::parse_type(input, first, depth + 1, cfg) {
                    Ok((_, st1)) => {
                        lemma_operands(input, st1, depth + 1, cfg, 1, Seq::empty());
                        if st1.pos <= k {
                            lemma_operands_cut(input, k, st1, depth + 1, cfg, 1, Seq::empty());
                        } else if pos + 2 <= k {
                            match grammar::parse_type(cut, first, depth + 1, cfg) {
                                Ok((_, at)) => {
                                    lemma_operands_at_end(cut, at, depth + 1, cfg, 1, Seq::empty());
                                },
                                Err(_) => {},
                            }
                        }
                    },
                    Err(_) => {},
                }
            } else {
                let count = grammar::operand_count(a, b);
                lemma_operands(input, first, depth + 1, cfg, count, Seq::empty());
                if pos + 2 <= k {
                    lemma_operands_cut(input, k, first, depth + 1, cfg, count, Seq::empty());
                }
            }
        }
    }
}

} // verus!
