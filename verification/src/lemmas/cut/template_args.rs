//! Template arguments, on an input cut short.

use vstd::prelude::*;
use crate::error::Error;
use crate::grammar;
use crate::grammar::{ParseOptions, ParseState};
use crate::handles::acyclic;
use crate::lemmas::cut::{cut_of, lemma_cut_input};

use crate::ast::TemplateArg;
use crate::handles::{lemma_template_args_below_more, template_args_below};
use crate::lemmas::cut::expression::lemma_expression_cut;
use crate::lemmas::handles::expression::lemma_expression;
use crate::lemmas::cut::leaves::{lemma_number_at_end, lemma_number_cut};
use crate::lemmas::cut::types::lemma_type_cut;
use crate::lemmas::handles::template_args::{
    lemma_template_arg, lemma_template_arg_list, lemma_template_args,
};
use crate::lemmas::handles::types::lemma_type;
use crate::lemmas::leaves::lemma_number;

verus! {

pub proof fn lemma_template_args_cut(
    input: Seq<u8>,
    k: int,
    st: ParseState,
    depth: nat,
    cfg: ParseOptions,
)
    requires
        0 <= st.pos <= k <= input.len(),
        acyclic(st.subs),
    ensures
        cut_of(
            grammar::parse_template_args(input, st, depth, cfg),
            grammar::parse_template_args(input.take(k), st, depth, cfg),
            k,
        ),
    decreases cfg.max_depth - depth, input.len() - st.pos, 32nat,
{
    reveal(grammar::parse_template_args);
    reveal(grammar::parse_template_arg_list);
    lemma_cut_input(input, k);
    lemma_template_args(input, st, depth, cfg);
    if st.pos < k {
        lemma_template_arg_list(input, st.at(st.pos + 1), depth, cfg, Seq::empty());
        lemma_template_arg_list_cut(input, k, st.at(st.pos + 1), depth, cfg, Seq::empty());
    }
}

/// A list ends where the `E` behind it stands, which it has to see: it is
/// the same on the cut input where the cut lies behind that `E`, and an
/// `UnexpectedEnd` where it does not.
pub proof fn lemma_template_arg_list_cut(
    input: Seq<u8>,
    k: int,
    st: ParseState,
    depth: nat,
    cfg: ParseOptions,
    done: Seq<TemplateArg>,
)
    requires
        0 <= st.pos <= k <= input.len(),
        acyclic(st.subs),
        template_args_below(done, st.subs.len() as int),
    ensures
        grammar::parse_template_arg_list(input, st, depth, cfg, done) matches Ok((_, st1)) ==> if st1.pos
            < k {
            grammar::parse_template_arg_list(input.take(k), st, depth, cfg, done)
                == grammar::parse_template_arg_list(input, st, depth, cfg, done)
        } else {
            grammar::parse_template_arg_list(input.take(k), st, depth, cfg, done) == Err::<
                (Seq<TemplateArg>, ParseState),
                Error,
            >(Error::UnexpectedEnd)
        },
    decreases cfg.max_depth - depth, input.len() - st.pos, 31nat,
{
    reveal(grammar::parse_template_arg_list);
    reveal(grammar::parse_template_arg);
    lemma_cut_input(input, k);
    lemma_template_arg_list(input, st, depth, cfg, done);
    let cut = input.take(k);
    if st.pos < k && input[st.pos] != 'E' as u8 {
        lemma_template_arg(input, st, depth, cfg);
        lemma_template_arg(cut, st, depth, cfg);
        lemma_template_arg_cut(input, k, st, depth, cfg);
        match grammar::parse_template_arg(input, st, depth, cfg) {
            Ok((arg, st1)) => {
                if grammar::moved_on(input, st.pos, st1) {
                    lemma_template_args_below_more(
                        done,
                        st.subs.len() as int,
                        st1.subs.len() as int,
                    );
                    lemma_template_arg_list(input, st1, depth, cfg, done.push(arg));
                    if st1.pos <= k {
                        lemma_template_arg_list_cut(input, k, st1, depth, cfg, done.push(arg));
                    } else {
                        match grammar::parse_template_arg(cut, st, depth, cfg) {
                            Ok((arg2, st2)) => {
                                lemma_template_arg_list_at_end(
                                    cut,
                                    st2,
                                    depth,
                                    cfg,
                                    done.push(arg2),
                                );
                            },
                            Err(_) => {},
                        }
                    }
                }
            },
            Err(_) => {},
        }
    }
}

pub proof fn lemma_template_arg_cut(
    input: Seq<u8>,
    k: int,
    st: ParseState,
    depth: nat,
    cfg: ParseOptions,
)
    requires
        0 <= st.pos <= k <= input.len(),
        acyclic(st.subs),
    ensures
        cut_of(
            grammar::parse_template_arg(input, st, depth, cfg),
            grammar::parse_template_arg(input.take(k), st, depth, cfg),
            k,
        ),
    decreases cfg.max_depth - depth, input.len() - st.pos, 30nat,
{
    reveal(grammar::parse_template_arg);
    lemma_cut_input(input, k);
    lemma_template_arg(input, st, depth, cfg);
    let cut = input.take(k);
    if st.pos < k {
        if input[st.pos] == 'L' as u8 {
            lemma_type(input, st.at(st.pos + 1), depth, cfg);
            lemma_type_cut(input, k, st.at(st.pos + 1), depth, cfg);
            match grammar::parse_type(input, st.at(st.pos + 1), depth, cfg) {
                Ok((_, st1)) => {
                    lemma_number(input, st1.pos);
                    if st1.pos <= k {
                        lemma_number_cut(input, k, st1.pos);
                    } else {
                        lemma_number_at_end(cut, k);
                    }
                },
                Err(_) => {},
            }
        } else if input[st.pos] == 'X' as u8 {
            lemma_expression(input, st.at(st.pos + 1), depth, cfg);
            lemma_expression_cut(input, k, st.at(st.pos + 1), depth, cfg);
        } else {
            lemma_type_cut(input, k, st, depth, cfg);
        }
    }
}

/// A list of template arguments at the end of the input is an
/// `UnexpectedEnd`.
pub proof fn lemma_template_arg_list_at_end(
    input: Seq<u8>,
    st: ParseState,
    depth: nat,
    cfg: ParseOptions,
    done: Seq<TemplateArg>,
)
    requires
        st.pos >= input.len(),
    ensures
        grammar::parse_template_arg_list(input, st, depth, cfg, done) == Err::<
            (Seq<TemplateArg>, ParseState),
            Error,
        >(Error::UnexpectedEnd),
{
    reveal(grammar::parse_template_arg_list);
}

} // verus!
