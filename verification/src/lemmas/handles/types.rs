//! The handles of types.

use vstd::prelude::*;
use crate::grammar;
use crate::grammar::{ParseOptions, ParseState};
use crate::handles::{acyclic, grows};
use crate::index_str::peek_at;

use crate::handles::type_handle_below;
use crate::lemmas::handles::expression::lemma_expression;
use crate::lemmas::handles::name::lemma_name;
use crate::lemmas::handles::template_args::lemma_template_args;
use crate::lemmas::handles::type_list::lemma_type_list;
use crate::lemmas::leaves::{
    lemma_array_dimension, lemma_source_name, lemma_substitution, lemma_template_param,
};
use crate::model;

verus! {

pub proof fn lemma_type(input: Seq<u8>, st: ParseState, depth: nat, cfg: ParseOptions)
    requires
        0 <= st.pos,
        acyclic(st.subs),
    ensures
        grammar::parse_type(input, st, depth, cfg) matches Ok((h, st1)) ==> grows(input, st, st1)
            && type_handle_below(h, st1.subs.len() as int),
    decreases cfg.max_depth - depth, input.len() - st.pos, 20nat,
{
    reveal(grammar::parse_type);
    let pos = st.pos;
    if pos < input.len() && depth < cfg.max_depth {
        let b = input[pos];
        if b == 'D' as u8 {
            lemma_type(input, st.at(pos + 2), depth + 1, cfg);
            lemma_expression(input, st.at(pos + 2), depth + 1, cfg);
        } else if b == 'r' as u8 || b == 'V' as u8 || b == 'K' as u8 {
            let (_, p1) = grammar::parse_cv_qualifiers(input, pos);
            lemma_type(input, st.at(p1), depth + 1, cfg);
        } else if b == 'P' as u8 || b == 'R' as u8 || b == 'O' as u8 || b == 'C' as u8 || b
            == 'G' as u8 {
            lemma_type(input, st.at(pos + 1), depth + 1, cfg);
        } else if b == 'A' as u8 {
            lemma_array_dimension(input, pos + 1);
            match grammar::parse_array_dimension(input, pos + 1) {
                Ok((_, p1)) => {
                    lemma_type(input, st.at(p1), depth + 1, cfg);
                },
                Err(_) => {},
            }
        } else if b == 'F' as u8 {
            let p1 = if peek_at(input, pos + 1) == Some('Y' as u8) {
                pos + 2
            } else {
                pos + 1
            };
            if p1 <= input.len() {
                lemma_type_list(input, st.at(p1), depth + 1, cfg, Seq::empty());
            }
        } else if b == 'M' as u8 {
            lemma_type(input, st.at(pos + 1), depth + 1, cfg);
            match grammar::parse_type(input, st.at(pos + 1), depth + 1, cfg) {
                Ok((_, st1)) => {
                    lemma_type(input, st1, depth + 1, cfg);
                },
                Err(_) => {},
            }
        } else if b == 'T' as u8 {
            lemma_template_param(input, pos);
            match grammar::parse_template_param(input, pos) {
                Ok((param, p1)) => {
                    let (_, st1) = st.at(p1).insert_type(model::Type::TemplateParam(param));
                    lemma_template_args(input, st1, depth + 1, cfg);
                },
                Err(_) => {},
            }
        } else if b == 'S' as u8 && !grammar::starts_std_name(input, pos) {
            lemma_substitution(input, pos, st.subs.len());
            match grammar::parse_substitution(input, pos, st.subs.len()) {
                Ok((_, p1)) => {
                    lemma_template_args(input, st.at(p1), depth + 1, cfg);
                },
                Err(_) => {},
            }
        } else if b == 'S' as u8 || b == 'N' as u8 || b == 'Z' as u8 || grammar::is_digit(b) {
            lemma_name(input, st, depth, cfg);
        } else if b == 'u' as u8 {
            lemma_source_name(input, pos + 1);
        } else if b == 'U' as u8 {
            lemma_source_name(input, pos + 1);
            match grammar::parse_source_name(input, pos + 1) {
                Ok((_, p1)) => {
                    lemma_type(input, st.at(p1), depth + 1, cfg);
                },
                Err(_) => {},
            }
        }
    }
}

} // verus!
