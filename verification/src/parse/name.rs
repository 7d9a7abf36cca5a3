//! The production for names.
use vstd::prelude::*;
use crate::ast::{local_name_view, name_view, Name, PrefixHandle, Substitutable};
use crate::parse::local::parse_local_name;
use crate::error::Error;
use crate::grammar;
use crate::grammar::ParseOptions;
use crate::index_str::IndexStr;
use crate::lex;
use crate::parse::nested::parse_nested_name;
use crate::parse::template_args::parse_template_args;
use crate::parse::unqualified::parse_unscoped_name;
use crate::parse::{parsed_view_as, prefix_handle, state_of};
use crate::subs::SubstitutionTable;

verus! {

/// `<name>`
pub fn parse_name<'a>(
    subs: &mut SubstitutionTable,
    input: IndexStr<'a>,
    depth: usize,
    cfg: &ParseOptions,
) -> (r: Result<(Name, IndexStr<'a>), Error>)
    ensures
        parsed_view_as(
            r,
            input,
            old(subs)@,
            final(subs)@,
            grammar::parse_name(input.buffer(), state_of(input, old(subs)@), depth as nat, *cfg),
        ),
    decreases cfg.max_depth - depth, input.buffer().len() - input.index(), 15nat,
{
    proof {
        reveal(grammar::parse_name);
        reveal_with_fuel(name_view, 2);
        reveal_with_fuel(local_name_view, 2);
    }
    let b = match input.peek() {
        None => { return Err(Error::UnexpectedEnd); },
        Some(b) => b,
    };
    if b == ('N' as u8) {
        match parse_nested_name(subs, input, depth, cfg) {
            Err(e) => Err(e),
            Ok((n, rest)) => Ok((Name::Nested(n), rest)),
        }
    } else if b == ('Z' as u8) {
        match parse_local_name(subs, input, depth, cfg) {
            Err(e) => Err(e),
            Ok((l, rest)) => Ok((Name::Local(Box::new(l)), rest)),
        }
    } else if b == ('S' as u8) && !lex::starts_std_name(&input) {
        match lex::parse_substitution(input, subs.len()) {
            Err(e) => Err(e),
            Ok((sub, p1)) => match p1.peek() {
                None => Err(Error::UnexpectedEnd),
                Some(c) => if c != ('I' as u8) {
                    Err(Error::UnexpectedToken)
                } else if depth >= cfg.max_depth {
                    Err(Error::RecursionLimitExceeded)
                } else {
                    match parse_template_args(subs, p1, depth + 1, cfg) {
                        Err(e) => Err(e),
                        Ok((args, rest)) => Ok(
                            (Name::UnscopedTemplate(prefix_handle(sub), args), rest),
                        ),
                    }
                },
            },
        }
    } else {
        match parse_unscoped_name(subs, input, depth, cfg) {
            Err(e) => Err(e),
            Ok((name, p1)) => if lex::at_byte(&p1, 'I' as u8) {
                if depth >= cfg.max_depth {
                    Err(Error::RecursionLimitExceeded)
                } else {
                    let idx = subs.insert(Substitutable::UnscopedTemplateName(name));
                    match parse_template_args(subs, p1, depth + 1, cfg) {
                        Err(e) => Err(e),
                        Ok((args, rest)) => Ok(
                            (Name::UnscopedTemplate(PrefixHandle::BackReference(idx), args), rest),
                        ),
                    }
                }
            } else {
                Ok((Name::Unscoped(name), p1))
            },
        }
    }
}

} // verus!
