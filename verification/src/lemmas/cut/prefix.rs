//! The scope of a nested name, on an input cut short.

use vstd::prelude::*;
use crate::error::Error;
use crate::grammar;
use crate::grammar::{ParseOptions, ParseState};
use crate::handles::acyclic;
use crate::index_str::peek_at;
use crate::lemmas::cut::{cut_of, lemma_cut_input};

use crate::ast::PrefixHandle;
use crate::handles::prefix_handle_below;
use crate::lemmas::cut::leaves::{lemma_substitution_cut, lemma_template_param_cut};
use crate::lemmas::cut::closure::lemma_closure_cut;
use crate::lemmas::handles::closure::lemma_closure;
use crate::lemmas::cut::template_args::lemma_template_args_cut;
use crate::lemmas::cut::unqualified::{lemma_lone_u_ends, lemma_unqualified_name_cut};
use crate::lemmas::handles::prefix::{lemma_prefix, lemma_prefix_component};
use crate::lemmas::leaves::lemma_substitution;
use crate::model;

verus! {

pub proof fn lemma_prefix_component_cut(
    input: Seq<u8>,
    k: int,
    st: ParseState,
    depth: nat,
    cfg: ParseOptions,
    scope: Option<PrefixHandle>,
)
    requires
        0 <= st.pos <= k <= input.len(),
        acyclic(st.subs),
        scope matches Some(h) ==> prefix_handle_below(h, st.subs.len() as int),
    ensures
        cut_of(
            grammar::parse_prefix_component(input, st, depth, cfg, scope),
            grammar::parse_prefix_component(input.take(k), st, depth, cfg, scope),
            k,
        ),
    decreases cfg.max_depth - depth, input.len() - st.pos, 11nat,
{
    reveal(grammar::parse_prefix_component);
    lemma_cut_input(input, k);
    lemma_prefix_component(input, st, depth, cfg, scope);
    let pos = st.pos;
    if pos < k && grammar::parse_prefix_component(input, st, depth, cfg, scope) is Ok {
        let b = input[pos];
        let cut = input.take(k);
        if b == 'U' as u8 && peek_at(input, pos + 1) == Some('l' as u8) {
            lemma_closure(input, st, depth, cfg);
            if pos + 2 <= k {
                lemma_closure_cut(input, k, st, depth, cfg);
            } else {
                lemma_lone_u_ends(cut, st, depth, cfg);
            }
        } else if b == 'I' as u8 {
            if depth < cfg.max_depth {
                lemma_template_args_cut(input, k, st, depth + 1, cfg);
            }
        } else if b == 'T' as u8 && scope is None {
            lemma_template_param_cut(input, k, pos);
        } else if grammar::is_unqualified_name_start(b) {
            lemma_unqualified_name_cut(input, k, st, depth, cfg);
        }
    }
}

/// A prefix ends where the `E` behind it stands, which it has to see: it
/// is the same on the cut input where the cut lies behind that `E`, and
/// an `UnexpectedEnd` where it does not.
pub proof fn lemma_prefix_cut(
    input: Seq<u8>,
    k: int,
    st: ParseState,
    depth: nat,
    cfg: ParseOptions,
    scope: Option<PrefixHandle>,
)
    requires
        0 <= st.pos <= k <= input.len(),
        acyclic(st.subs),
        scope matches Some(h) ==> prefix_handle_below(h, st.subs.len() as int),
    ensures
        grammar::parse_prefix(input, st, depth, cfg, scope) matches Ok((_, st1)) ==> if st1.pos
            < k {
            grammar::parse_prefix(input.take(k), st, depth, cfg, scope) == grammar::parse_prefix(
                input,
                st,
                depth,
                cfg,
                scope,
            )
        } else {
            grammar::parse_prefix(input.take(k), st, depth, cfg, scope) == Err::<
                (model::Prefix, ParseState),
                Error,
            >(Error::UnexpectedEnd)
        },
    decreases cfg.max_depth - depth, input.len() - st.pos, 13nat,
{
    reveal(grammar::parse_prefix);
    reveal(grammar::parse_prefix_component);
    lemma_cut_input(input, k);
    lemma_prefix(input, st, depth, cfg, scope);
    let cut = input.take(k);
    let pos = st.pos;
    if grammar::parse_prefix(input, st, depth, cfg, scope) is Ok {
        if peek_at(input, pos) == Some('S' as u8) && scope is None {
            lemma_substitution(input, pos, st.subs.len());
            lemma_substitution_cut(input, k, pos, st.subs.len());
            match grammar::parse_substitution(input, pos, st.subs.len()) {
                Ok((sub, p1)) => {
                    let next = Some(grammar::prefix_handle(sub));
                    lemma_prefix(input, st.at(p1), depth, cfg, next);
                    if p1 <= k {
                        lemma_prefix_cut(input, k, st.at(p1), depth, cfg, next);
                    } else {
                        match grammar::parse_substitution(cut, pos, st.subs.len()) {
                            Ok((sub2, q1)) => {
                                lemma_prefix_at_end(
                                    cut,
                                    st.at(q1),
                                    depth,
                                    cfg,
                                    Some(grammar::prefix_handle(sub2)),
                                );
                            },
                            Err(_) => {},
                        }
                    }
                },
                Err(_) => {},
            }
        } else {
            lemma_prefix_component(input, st, depth, cfg, scope);
            lemma_prefix_component(cut, st, depth, cfg, scope);
            lemma_prefix_component_cut(input, k, st, depth, cfg, scope);
            match grammar::parse_prefix_component(input, st, depth, cfg, scope) {
                Ok((prefix, st1)) => {
                    let st2 = st1.insert(model::Substitutable::Prefix(prefix));
                    let next = Some(PrefixHandle::BackReference(st1.next_index()));
                    if peek_at(input, st1.pos) != Some('E' as u8) {
                        lemma_prefix(input, st2, depth, cfg, next);
                        if st1.pos <= k {
                            lemma_prefix_cut(input, k, st2, depth, cfg, next);
                        }
                    }
                },
                Err(_) => {},
            }
        }
    }
}

/// A prefix at the end of the input is an `UnexpectedEnd`.
pub proof fn lemma_prefix_at_end(
    input: Seq<u8>,
    st: ParseState,
    depth: nat,
    cfg: ParseOptions,
    scope: Option<PrefixHandle>,
)
    requires
        st.pos >= input.len(),
    ensures
        grammar::parse_prefix(input, st, depth, cfg, scope) == Err::<
            (model::Prefix, ParseState),
            Error,
        >(Error::UnexpectedEnd),
{
    reveal(grammar::parse_prefix);
    reveal(grammar::parse_prefix_component);
    lemma_prefix_component_at_end(input, st, depth, cfg, scope);
}

/// A component of a prefix at the end of the input is an `UnexpectedEnd`.
pub proof fn lemma_prefix_component_at_end(
    input: Seq<u8>,
    st: ParseState,
    depth: nat,
    cfg: ParseOptions,
    scope: Option<PrefixHandle>,
)
    requires
        st.pos >= input.len(),
    ensures
        grammar::parse_prefix_component(input, st, depth, cfg, scope) == Err::<
            (model::Prefix, ParseState),
            Error,
        >(Error::UnexpectedEnd),
{
    reveal(grammar::parse_prefix_component);
}

} // verus!
