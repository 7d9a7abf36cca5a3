//! The productions for the scope of a nested name.
use vstd::prelude::*;
use crate::ast::{Prefix, PrefixHandle, Substitutable};
use crate::error::Error;
use crate::grammar;
use crate::grammar::ParseOptions;
use crate::index_str::{peek_at, IndexStr};
use crate::lex;
use crate::parse::template_args::parse_template_args;
use crate::parse::closure::parse_closure;
use crate::parse::unqualified::parse_unqualified_name;
use crate::parse::{extends, parsed_view_as, prefix_handle, state_of};
use crate::subs::SubstitutionTable;

verus! {

/// One component of a prefix, joined to the scope before it.
pub fn parse_prefix_component<'a>(
    subs: &mut SubstitutionTable,
    input: IndexStr<'a>,
    depth: usize,
    cfg: &ParseOptions,
    scope: Option<PrefixHandle>,
) -> (r: Result<(Prefix, IndexStr<'a>), Error>)
    ensures
        parsed_view_as(
            r,
            input,
            old(subs)@,
            final(subs)@,
            grammar::parse_prefix_component(
                input.buffer(),
                state_of(input, old(subs)@),
                depth as nat,
                *cfg,
                scope,
            ),
        ),
    decreases cfg.max_depth - depth, input.buffer().len() - input.index(), 11nat,
{
    proof {
        reveal(grammar::parse_prefix_component);
    }
    match input.peek() {
        None => Err(Error::UnexpectedEnd),
        Some(b) => if b == ('U' as u8) && lex::at_byte(&input.bump(), 'l' as u8) {
            match parse_closure(subs, input, depth, cfg) {
                Err(e) => Err(e),
                Ok(((types, index), rest)) => Ok((Prefix::Closure(scope, types, index), rest)),
            }
        } else if b == ('I' as u8) {
            match scope {
                None => Err(Error::UnexpectedToken),
                Some(h) => if depth >= cfg.max_depth {
                    Err(Error::RecursionLimitExceeded)
                } else {
                    match parse_template_args(subs, input, depth + 1, cfg) {
                        Err(e) => Err(e),
                        Ok((args, rest)) => Ok((Prefix::Template(h, args), rest)),
                    }
                },
            }
        } else if b == ('T' as u8) && scope.is_none() {
            match lex::parse_template_param(input) {
                Err(e) => Err(e),
                Ok((p, rest)) => Ok((Prefix::TemplateParam(p), rest)),
            }
        } else if lex::is_unqualified_name_start(b) {
            match parse_unqualified_name(subs, input, depth, cfg) {
                Err(e) => Err(e),
                Ok((n, rest)) => Ok(
                    (
                        match scope {
                            None => Prefix::Unqualified(n),
                            Some(h) => Prefix::Nested(h, n),
                        },
                        rest,
                    ),
                ),
            }
        } else {
            Err(Error::UnexpectedToken)
        },
    }
}

/// `<prefix>`, up to the `E` behind it, which is left in place.
pub fn parse_prefix<'a>(
    subs: &mut SubstitutionTable,
    input: IndexStr<'a>,
    depth: usize,
    cfg: &ParseOptions,
    scope: Option<PrefixHandle>,
) -> (r: Result<(Prefix, IndexStr<'a>), Error>)
    ensures
        parsed_view_as(
            r,
            input,
            old(subs)@,
            final(subs)@,
            grammar::parse_prefix(
                input.buffer(),
                state_of(input, old(subs)@),
                depth as nat,
                *cfg,
                scope,
            ),
        ),
        r matches Ok((_, rest)) ==> peek_at(rest.buffer(), rest.index()) == Some('E' as u8),
    decreases cfg.max_depth - depth, input.buffer().len() - input.index(), 13nat,
{
    proof {
        reveal(grammar::parse_prefix);
        reveal(grammar::parse_prefix_component);
    }
    let ghost buf = input.buffer();
    let ghost before = subs@;
    let ghost want = grammar::parse_prefix(buf, state_of(input, before), depth as nat, *cfg, scope);
    let mut cur = input;
    let mut scope_now = scope;
    let _ = input.position();
    loop
        invariant
            cur.buffer() == buf,
            buf == input.buffer(),
            input.index() <= cur.index() <= buf.len(),
            extends(subs@, before),
            before == old(subs)@,
            want == grammar::parse_prefix(buf, state_of(input, before), depth as nat, *cfg, scope),
            want == grammar::parse_prefix(buf, state_of(cur, subs@), depth as nat, *cfg, scope_now),
        decreases buf.len() - cur.index(),
    {
        proof {
            reveal(grammar::parse_prefix);
            reveal(grammar::parse_prefix_component);
        }
        if lex::at_byte(&cur, 'S' as u8) && scope_now.is_none() {
            match lex::parse_substitution(cur, subs.len()) {
                Err(e) => {
                    return Err(e);
                },
                Ok((sub, rest)) => {
                    scope_now = Some(prefix_handle(sub));
                    cur = rest;
                },
            }
        } else {
            match parse_prefix_component(subs, cur, depth, cfg, scope_now) {
                Err(e) => {
                    return Err(e);
                },
                Ok((prefix, rest)) => match rest.peek() {
                    None => {
                        return Err(Error::UnexpectedEnd);
                    },
                    Some(c) => if c == ('E' as u8) {
                        return Ok((prefix, rest));
                    } else {
                        let idx = subs.insert(Substitutable::Prefix(prefix));
                        scope_now = Some(PrefixHandle::BackReference(idx));
                        cur = rest;
                    },
                },
            }
        }
    }
}

} // verus!
