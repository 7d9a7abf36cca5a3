//! The handles of the scope of a nested name.

use vstd::prelude::*;
use crate::grammar;
use crate::grammar::{ParseOptions, ParseState};
use crate::handles::{acyclic, grows};
use crate::index_str::peek_at;

use crate::ast::PrefixHandle;
use crate::handles::{prefix_below, prefix_handle_below};
use crate::lemmas::handles::template_args::lemma_template_args;
use crate::lemmas::handles::closure::lemma_closure;
use crate::lemmas::handles::unqualified::lemma_unqualified_name;
use crate::lemmas::leaves::{lemma_substitution, lemma_template_param};
use crate::model;

verus! {

pub proof fn lemma_prefix_component(
    input: Seq<u8>,
    st: ParseState,
    depth: nat,
    cfg: ParseOptions,
    scope: Option<PrefixHandle>,
)
    requires
        0 <= st.pos,
        acyclic(st.subs),
        scope matches Some(h) ==> prefix_handle_below(h, st.subs.len() as int),
    ensures
        grammar::parse_prefix_component(input, st, depth, cfg, scope) matches Ok((prefix, st1))
            ==> grows(input, st, st1) && prefix_below(prefix, st1.subs.len() as int),
    decreases cfg.max_depth - depth, input.len() - st.pos, 11nat,
{
    reveal(grammar::parse_prefix_component);
    let pos = st.pos;
    if pos < input.len() {
        let b = input[pos];
        if b == 'U' as u8 && peek_at(input, pos + 1) == Some('l' as u8) {
            lemma_closure(input, st, depth, cfg);
        } else if b == 'I' as u8 {
            if depth < cfg.max_depth {
                lemma_template_args(input, st, depth + 1, cfg);
            }
        } else if b == 'T' as u8 && scope is None {
            lemma_template_param(input, pos);
        } else if grammar::is_unqualified_name_start(b) {
            lemma_unqualified_name(input, st, depth, cfg);
        }
    }
}

/// The prefix that is accepted ends where an `E` stands.
pub proof fn lemma_prefix(
    input: Seq<u8>,
    st: ParseState,
    depth: nat,
    cfg: ParseOptions,
    scope: Option<PrefixHandle>,
)
    requires
        0 <= st.pos,
        acyclic(st.subs),
        scope matches Some(h) ==> prefix_handle_below(h, st.subs.len() as int),
    ensures
        grammar::parse_prefix(input, st, depth, cfg, scope) matches Ok((prefix, st1)) ==> st.pos
            < st1.pos < input.len() && grows(input, st, st1) && prefix_below(
            prefix,
            st1.subs.len() as int,
        ) && peek_at(input, st1.pos) == Some('E' as u8),
    decreases cfg.max_depth - depth, input.len() - st.pos, 13nat,
{
    reveal(grammar::parse_prefix);
    reveal(grammar::parse_prefix_component);
    let pos = st.pos;
    if peek_at(input, pos) == Some('S' as u8) && scope is None {
        lemma_substitution(input, pos, st.subs.len());
        match grammar::parse_substitution(input, pos, st.subs.len()) {
            Ok((sub, p1)) => {
                if grammar::moved_on(input, pos, st.at(p1)) {
                    lemma_prefix(input, st.at(p1), depth, cfg, Some(grammar::prefix_handle(sub)));
                }
            },
            Err(_) => {},
        }
    } else {
        lemma_prefix_component(input, st, depth, cfg, scope);
        match grammar::parse_prefix_component(input, st, depth, cfg, scope) {
            Ok((prefix, st1)) => {
                if grammar::moved_on(input, pos, st1) {
                    lemma_prefix(
                        input,
                        st1.insert(model::Substitutable::Prefix(prefix)),
                        depth,
                        cfg,
                        Some(PrefixHandle::BackReference(st1.next_index())),
                    );
                }
            },
            Err(_) => {},
        }
    }
}

} // verus!
