//! Types, on an input cut short.

use vstd::prelude::*;
use crate::error::Error;
use crate::grammar;
use crate::grammar::{ParseOptions, ParseState};
use crate::handles::acyclic;
use crate::index_str::peek_at;
use crate::lemmas::cut::{cut_of, lemma_cut_input};

use crate::lemmas::cut::leaves::{
    lemma_array_dimension_cut, lemma_source_name_cut, lemma_std_is_substitution,
    lemma_substitution_cut, lemma_template_param_cut,
};
use crate::lemmas::cut::expression::lemma_expression_cut;
use crate::lemmas::cut::name::{lemma_name_cut, lemma_name_in_std_is_long};
use crate::lemmas::handles::expression::lemma_expression;
use crate::lemmas::cut::template_args::lemma_template_args_cut;
use crate::lemmas::cut::type_list::lemma_type_list_cut;
use crate::lemmas::handles::name::lemma_name;
use crate::lemmas::handles::template_args::lemma_template_args;
use crate::lemmas::handles::type_list::lemma_type_list;
use crate::lemmas::handles::types::lemma_type;
use crate::lemmas::leaves::{
    lemma_array_dimension, lemma_source_name, lemma_substitution, lemma_template_param,
};
use crate::model;

verus! {

pub proof fn lemma_type_cut(input: Seq<u8>, k: int, st: ParseState, depth: nat, cfg: ParseOptions)
    requires
        0 <= st.pos <= k <= input.len(),
        acyclic(st.subs),
    ensures
        cut_of(
            grammar::parse_type(input, st, depth, cfg),
            grammar::parse_type(input.take(k), st, depth, cfg),
            k,
        ),
    decreases cfg.max_depth - depth, input.len() - st.pos, 20nat,
{
    reveal(grammar::parse_type);
    lemma_cut_input(input, k);
    lemma_type(input, st, depth, cfg);
    let cut = input.take(k);
    let pos = st.pos;
    if pos < k && depth < cfg.max_depth && grammar::parse_type(input, st, depth, cfg) is Ok {
        let b = input[pos];
        if grammar::is_builtin_code(b) {
        } else if b == 'D' as u8 {
            lemma_type(input, st.at(pos + 2), depth + 1, cfg);
            lemma_expression(input, st.at(pos + 2), depth + 1, cfg);
            if pos + 2 <= k {
                lemma_type_cut(input, k, st.at(pos + 2), depth + 1, cfg);
                lemma_expression_cut(input, k, st.at(pos + 2), depth + 1, cfg);
            }
        } else if b == 'r' as u8 || b == 'V' as u8 || b == 'K' as u8 {
            let (_, p1) = grammar::parse_cv_qualifiers(input, pos);
            lemma_type(input, st.at(p1), depth + 1, cfg);
            if p1 <= k {
                lemma_type_cut(input, k, st.at(p1), depth + 1, cfg);
            } else {
                let (_, q1) = grammar::parse_cv_qualifiers(cut, pos);
                lemma_type_at_end(cut, st.at(q1), depth + 1, cfg);
            }
        } else if b == 'P' as u8 || b == 'R' as u8 || b == 'O' as u8 || b == 'C' as u8 || b
            == 'G' as u8 {
            lemma_type_cut(input, k, st.at(pos + 1), depth + 1, cfg);
        } else if b == 'A' as u8 {
            lemma_array_dimension(input, pos + 1);
            lemma_array_dimension_cut(input, k, pos + 1);
            match grammar::parse_array_dimension(input, pos + 1) {
                Ok((_, p1)) => {
                    lemma_type(input, st.at(p1), depth + 1, cfg);
                    if p1 <= k {
                        lemma_type_cut(input, k, st.at(p1), depth + 1, cfg);
                    } else {
                        match grammar::parse_array_dimension(cut, pos + 1) {
                            Ok((_, q1)) => {
                                lemma_type_at_end(cut, st.at(q1), depth + 1, cfg);
                            },
                            Err(_) => {},
                        }
                    }
                },
                Err(_) => {},
            }
        } else if b == 'F' as u8 {
            let p1 = if peek_at(input, pos + 1) == Some('Y' as u8) {
                pos + 2
            } else {
                pos + 1
            };
            lemma_type_list(input, st.at(p1), depth + 1, cfg, Seq::empty());
            if p1 <= k {
                lemma_type_list_cut(input, k, st.at(p1), depth + 1, cfg, Seq::empty());
            }
        } else if b == 'M' as u8 {
            lemma_type_cut(input, k, st.at(pos + 1), depth + 1, cfg);
            lemma_type(input, st.at(pos + 1), depth + 1, cfg);
            match grammar::parse_type(input, st.at(pos + 1), depth + 1, cfg) {
                Ok((_, st1)) => {
                    lemma_type(input, st1, depth + 1, cfg);
                    if st1.pos <= k {
                        lemma_type_cut(input, k, st1, depth + 1, cfg);
                    } else {
                        match grammar::parse_type(cut, st.at(pos + 1), depth + 1, cfg) {
                            Ok((_, st2)) => {
                                lemma_type_at_end(cut, st2, depth + 1, cfg);
                            },
                            Err(_) => {},
                        }
                    }
                },
                Err(_) => {},
            }
        } else if b == 'T' as u8 {
            lemma_template_param(input, pos);
            lemma_template_param_cut(input, k, pos);
            match grammar::parse_template_param(input, pos) {
                Ok((param, p1)) => {
                    let (_, st1) = st.at(p1).insert_type(model::Type::TemplateParam(param));
                    lemma_template_args(input, st1, depth + 1, cfg);
                    if p1 < k {
                        lemma_template_args_cut(input, k, st1, depth + 1, cfg);
                    }
                },
                Err(_) => {},
            }
        } else if b == 'S' as u8 && !grammar::starts_std_name(input, pos) {
            lemma_substitution(input, pos, st.subs.len());
            lemma_substitution_cut(input, k, pos, st.subs.len());
            match grammar::parse_substitution(input, pos, st.subs.len()) {
                Ok((_, p1)) => {
                    lemma_template_args(input, st.at(p1), depth + 1, cfg);
                    if p1 < k {
                        lemma_template_args_cut(input, k, st.at(p1), depth + 1, cfg);
                    }
                },
                Err(_) => {},
            }
        } else if b == 'S' as u8 || b == 'N' as u8 || b == 'Z' as u8 || grammar::is_digit(b) {
            lemma_name(input, st, depth, cfg);
            if b == 'S' as u8 && !grammar::starts_std_name(cut, pos) {
                lemma_name_in_std_is_long(input, st, depth, cfg);
                lemma_std_is_substitution(input, pos, st.subs.len());
                lemma_substitution(input, pos, st.subs.len());
                lemma_substitution_cut(input, k, pos, st.subs.len());
            } else {
                lemma_name_cut(input, k, st, depth, cfg);
            }
        } else if b == 'u' as u8 {
            lemma_source_name(input, pos + 1);
            lemma_source_name_cut(input, k, pos + 1);
        } else if b == 'U' as u8 {
            lemma_source_name(input, pos + 1);
            lemma_source_name_cut(input, k, pos + 1);
            match grammar::parse_source_name(input, pos + 1) {
                Ok((_, p1)) => {
                    lemma_type(input, st.at(p1), depth + 1, cfg);
                    if p1 <= k {
                        lemma_type_cut(input, k, st.at(p1), depth + 1, cfg);
                    } else {
                        match grammar::parse_source_name(cut, pos + 1) {
                            Ok((_, q1)) => {
                                lemma_type_at_end(cut, st.at(q1), depth + 1, cfg);
                            },
                            Err(_) => {},
                        }
                    }
                },
                Err(_) => {},
            }
        }
    }
}

/// A type at the end of the input is an `UnexpectedEnd`.
pub proof fn lemma_type_at_end(input: Seq<u8>, st: ParseState, depth: nat, cfg: ParseOptions)
    requires
        st.pos >= input.len(),
    ensures
        grammar::parse_type(input, st, depth, cfg) == Err::<
            (crate::ast::TypeHandle, ParseState),
            Error,
        >(Error::UnexpectedEnd),
{
    reveal(grammar::parse_type);
}

} // verus!
