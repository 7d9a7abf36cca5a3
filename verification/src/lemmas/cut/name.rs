//! Names, on an input cut short.

use vstd::prelude::*;
use crate::error::Error;
use crate::grammar;
use crate::grammar::{ParseOptions, ParseState};
use crate::handles::acyclic;
use crate::index_str::peek_at;
use crate::lemmas::cut::{cut_of, lemma_cut_input};

use crate::lemmas::cut::leaves::{lemma_std_is_substitution, lemma_substitution_cut};
use crate::lemmas::cut::local::lemma_local_name_cut;
use crate::lemmas::cut::nested::lemma_nested_name_cut;
use crate::lemmas::cut::template_args::lemma_template_args_cut;
use crate::lemmas::cut::unqualified::{
    lemma_lone_u_unscoped_ends, lemma_std_name_is_long, lemma_unscoped_name_cut,
};
use crate::lemmas::handles::name::lemma_name;
use crate::lemmas::handles::template_args::lemma_template_args;
use crate::lemmas::handles::unqualified::lemma_unscoped_name;
use crate::lemmas::leaves::lemma_substitution;
use crate::model;

verus! {

pub proof fn lemma_name_cut(input: Seq<u8>, k: int, st: ParseState, depth: nat, cfg: ParseOptions)
    requires
        0 <= st.pos <= k <= input.len(),
        acyclic(st.subs),
    ensures
        cut_of(
            grammar::parse_name(input, st, depth, cfg),
            grammar::parse_name(input.take(k), st, depth, cfg),
            k,
        ),
    decreases cfg.max_depth - depth, input.len() - st.pos, 15nat,
{
    reveal(grammar::parse_name);
    lemma_cut_input(input, k);
    lemma_name(input, st, depth, cfg);
    let cut = input.take(k);
    let pos = st.pos;
    if pos < k && grammar::parse_name(input, st, depth, cfg) is Ok {
        let b = input[pos];
        if b == 'N' as u8 {
            lemma_nested_name_cut(input, k, st, depth, cfg);
        } else if b == 'Z' as u8 {
            lemma_local_name_cut(input, k, st, depth, cfg);
        } else if b == 'S' as u8 && !grammar::starts_std_name(input, pos) {
            lemma_substitution(input, pos, st.subs.len());
            lemma_substitution_cut(input, k, pos, st.subs.len());
            match grammar::parse_substitution(input, pos, st.subs.len()) {
                Ok((_, p1)) => {
                    if depth < cfg.max_depth {
                        lemma_template_args(input, st.at(p1), depth + 1, cfg);
                        if p1 < k {
                            lemma_template_args_cut(input, k, st.at(p1), depth + 1, cfg);
                        }
                    }
                },
                Err(_) => {},
            }
        } else if b == 'S' as u8 && !grammar::starts_std_name(cut, pos) {
            lemma_unscoped_name(input, st, depth, cfg);
            lemma_std_name_is_long(input, st, depth, cfg);
            lemma_std_is_substitution(input, pos, st.subs.len());
            lemma_substitution(input, pos, st.subs.len());
            lemma_substitution_cut(input, k, pos, st.subs.len());
            match grammar::parse_unscoped_name(input, st, depth, cfg) {
                Ok((name, st1)) => {
                    if depth < cfg.max_depth {
                        lemma_template_args(
                            input,
                            st1.insert(model::Substitutable::UnscopedTemplateName(name)),
                            depth + 1,
                            cfg,
                        );
                    }
                },
                Err(_) => {},
            }
        } else {
            lemma_unscoped_name(input, st, depth, cfg);
            lemma_unscoped_name_cut(input, k, st, depth, cfg);
            match grammar::parse_unscoped_name(input, st, depth, cfg) {
                Ok((name, st1)) => {
                    if depth < cfg.max_depth {
                        let st2 = st1.insert(model::Substitutable::UnscopedTemplateName(name));
                        lemma_template_args(input, st2, depth + 1, cfg);
                        if st1.pos < k {
                            lemma_template_args_cut(input, k, st2, depth + 1, cfg);
                        }
                    }
                },
                Err(_) => {},
            }
        }
    }
}

/// A name that begins as one in `std` does ends behind the `St` and one
/// byte more.
pub proof fn lemma_name_in_std_is_long(input: Seq<u8>, st: ParseState, depth: nat, cfg: ParseOptions)
    requires
        0 <= st.pos,
        acyclic(st.subs),
        grammar::starts_std_name(input, st.pos),
    ensures
        grammar::parse_name(input, st, depth, cfg) matches Ok((_, st1)) ==> st.pos + 2 < st1.pos,
{
    reveal(grammar::parse_name);
    lemma_unscoped_name(input, st, depth, cfg);
    lemma_std_name_is_long(input, st, depth, cfg);
    match grammar::parse_unscoped_name(input, st, depth, cfg) {
        Ok((name, st1)) => {
            if depth < cfg.max_depth {
                lemma_template_args(
                    input,
                    st1.insert(model::Substitutable::UnscopedTemplateName(name)),
                    depth + 1,
                    cfg,
                );
            }
        },
        Err(_) => {},
    }
}

/// A `U` with nothing behind it is an `UnexpectedEnd` as a name.
pub proof fn lemma_lone_u_name_ends(input: Seq<u8>, st: ParseState, depth: nat, cfg: ParseOptions)
    requires
        peek_at(input, st.pos) == Some('U' as u8),
        st.pos + 1 >= input.len(),
    ensures
        grammar::parse_name(input, st, depth, cfg) == Err::<(model::Name, ParseState), Error>(
            Error::UnexpectedEnd,
        ),
{
    reveal(grammar::parse_name);
    lemma_lone_u_unscoped_ends(input, st, depth, cfg);
}

/// A name at the end of the input is an `UnexpectedEnd`.
pub proof fn lemma_name_at_end(input: Seq<u8>, st: ParseState, depth: nat, cfg: ParseOptions)
    requires
        st.pos >= input.len(),
    ensures
        grammar::parse_name(input, st, depth, cfg) == Err::<(model::Name, ParseState), Error>(
            Error::UnexpectedEnd,
        ),
{
    reveal(grammar::parse_name);
}

} // verus!
