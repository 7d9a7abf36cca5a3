//! The handles of template arguments.

use vstd::prelude::*;
use crate::grammar;
use crate::grammar::{ParseOptions, ParseState};
use crate::handles::{acyclic, grows};

use crate::ast::TemplateArg;
use crate::handles::{lemma_template_args_below_more, template_arg_below, template_args_below};
use crate::lemmas::handles::expression::lemma_expression;
use crate::lemmas::handles::types::lemma_type;
use crate::lemmas::leaves::lemma_number;
use crate::parse::extends;

verus! {

pub proof fn lemma_template_args(input: Seq<u8>, st: ParseState, depth: nat, cfg: ParseOptions)
    requires
        0 <= st.pos,
        acyclic(st.subs),
    ensures
        grammar::parse_template_args(input, st, depth, cfg) matches Ok((args, st1)) ==> grows(
            input,
            st,
            st1,
        ) && template_args_below(args, st1.subs.len() as int),
    decreases cfg.max_depth - depth, input.len() - st.pos, 32nat,
{
    reveal(grammar::parse_template_args);
    reveal(grammar::parse_template_arg_list);
    if st.pos < input.len() {
        lemma_template_arg_list(input, st.at(st.pos + 1), depth, cfg, Seq::empty());
    }
}

/// The list that is accepted ends where an `E` stands.
pub proof fn lemma_template_arg_list(
    input: Seq<u8>,
    st: ParseState,
    depth: nat,
    cfg: ParseOptions,
    done: Seq<TemplateArg>,
)
    requires
        0 <= st.pos,
        acyclic(st.subs),
        template_args_below(done, st.subs.len() as int),
    ensures
        grammar::parse_template_arg_list(input, st, depth, cfg, done) matches Ok((args, st1))
            ==> st.pos <= st1.pos < input.len() && acyclic(st1.subs) && extends(
            st1.subs,
            st.subs,
        ) && template_args_below(args, st1.subs.len() as int),
    decreases cfg.max_depth - depth, input.len() - st.pos, 31nat,
{
    reveal(grammar::parse_template_arg_list);
    reveal(grammar::parse_template_arg);
    if st.pos < input.len() && input[st.pos] != 'E' as u8 {
        lemma_template_arg(input, st, depth, cfg);
        match grammar::parse_template_arg(input, st, depth, cfg) {
            Ok((arg, st1)) => {
                if grammar::moved_on(input, st.pos, st1) {
                    lemma_template_args_below_more(
                        done,
                        st.subs.len() as int,
                        st1.subs.len() as int,
                    );
                    lemma_template_arg_list(input, st1, depth, cfg, done.push(arg));
                }
            },
            Err(_) => {},
        }
    }
}

pub proof fn lemma_template_arg(input: Seq<u8>, st: ParseState, depth: nat, cfg: ParseOptions)
    requires
        0 <= st.pos,
        acyclic(st.subs),
    ensures
        grammar::parse_template_arg(input, st, depth, cfg) matches Ok((arg, st1)) ==> grows(
            input,
            st,
            st1,
        ) && template_arg_below(arg, st1.subs.len() as int),
    decreases cfg.max_depth - depth, input.len() - st.pos, 30nat,
{
    reveal(grammar::parse_template_arg);
    if st.pos < input.len() {
        if input[st.pos] == 'L' as u8 {
            lemma_type(input, st.at(st.pos + 1), depth, cfg);
            match grammar::parse_type(input, st.at(st.pos + 1), depth, cfg) {
                Ok((_, st1)) => {
                    lemma_number(input, st1.pos);
                },
                Err(_) => {},
            }
        } else if input[st.pos] == 'X' as u8 {
            lemma_expression(input, st.at(st.pos + 1), depth, cfg);
        } else {
            lemma_type(input, st, depth, cfg);
        }
    }
}

} // verus!
