//! The productions for what is declared inside a function.

use vstd::prelude::*;
use crate::ast::{local_name_view, name_view, BareFunctionType, LocalEntity, LocalName, Name};
use crate::error::Error;
use crate::grammar;
use crate::grammar::ParseOptions;
use crate::index_str::IndexStr;
use crate::lex;
use crate::parse::closure::parse_closure;
use crate::parse::name::parse_name;
use crate::parse::type_list::parse_type_list;
use crate::parse::{extends, parsed_view_as, state_of};
use crate::subs::SubstitutionTable;

verus! {

/// `<local-name>`
pub fn parse_local_name<'a>(
    subs: &mut SubstitutionTable,
    input: IndexStr<'a>,
    depth: usize,
    cfg: &ParseOptions,
) -> (r: Result<(LocalName, IndexStr<'a>), Error>)
    ensures
        parsed_view_as(
            r,
            input,
            old(subs)@,
            final(subs)@,
            grammar::parse_local_name(
                input.buffer(),
                state_of(input, old(subs)@),
                depth as nat,
                *cfg,
            ),
        ),
    decreases cfg.max_depth - depth, input.buffer().len() - input.index(), 14nat,
{
    proof {
        reveal(grammar::parse_local_name);
        reveal(grammar::parse_local_scope);
        reveal(grammar::parse_local_entity);
        reveal_with_fuel(name_view, 2);
        reveal_with_fuel(local_name_view, 2);
    }
    match input.peek() {
        None => Err(Error::UnexpectedEnd),
        Some(z) => if z != ('Z' as u8) {
            Err(Error::UnexpectedToken)
        } else {
            match input.peek_second() {
                None => Err(Error::UnexpectedEnd),
                Some(_c) => if depth >= cfg.max_depth {
                    Err(Error::RecursionLimitExceeded)
                } else {
                    match parse_local_scope(subs, input.bump(), depth + 1, cfg) {
                        Err(e) => Err(e),
                        Ok(((scope_name, scope_types), p1)) => match p1.peek() {
                            None => Err(Error::UnexpectedEnd),
                            Some(e) => if e != ('E' as u8) {
                                Err(Error::UnexpectedToken)
                            } else {
                                match parse_local_entity(subs, p1.bump(), depth + 1, cfg) {
                                    Err(e) => Err(e),
                                    Ok((entity, p2)) => match lex::parse_discriminator(p2) {
                                        Err(e) => Err(e),
                                        Ok((discriminator, rest)) => Ok(
                                            (
                                                LocalName {
                                                    scope_name,
                                                    scope_types,
                                                    entity,
                                                    discriminator,
                                                },
                                                rest,
                                            ),
                                        ),
                                    },
                                }
                            },
                        },
                    }
                },
            }
        },
    }
}

/// The function that a local name lies in: `<name> [<type>+]`.
pub fn parse_local_scope<'a>(
    subs: &mut SubstitutionTable,
    input: IndexStr<'a>,
    depth: usize,
    cfg: &ParseOptions,
) -> (r: Result<((Name, Option<BareFunctionType>), IndexStr<'a>), Error>)
    ensures
        extends(final(subs)@, old(subs)@),
        match grammar::parse_local_scope(
            input.buffer(),
            state_of(input, old(subs)@),
            depth as nat,
            *cfg,
        ) {
            Ok(((name, types), st)) => r matches Ok(((n, t), rest)) && n@ == name && (match types {
                Some(list) => t matches Some(l) && l@ == list,
                None => t is None,
            }) && rest.buffer() == input.buffer() && rest.index() == st.pos && final(subs)@
                == st.subs && input.index() < st.pos <= input.buffer().len(),
            Err(e) => r matches Err(x) && x == e,
        },
    decreases cfg.max_depth - depth, input.buffer().len() - input.index(), 26nat,
{
    proof {
        reveal(grammar::parse_local_scope);
    }
    match parse_name(subs, input, depth, cfg) {
        Err(e) => Err(e),
        Ok((name, p1)) => if !lex::starts_type(&p1) {
            Ok(((name, None), p1))
        } else {
            match parse_type_list(subs, p1, depth, cfg) {
                Err(e) => Err(e),
                Ok((types, rest)) => Ok(((name, Some(types)), rest)),
            }
        },
    }
}

/// `<entity>`
pub fn parse_local_entity<'a>(
    subs: &mut SubstitutionTable,
    input: IndexStr<'a>,
    depth: usize,
    cfg: &ParseOptions,
) -> (r: Result<(LocalEntity, IndexStr<'a>), Error>)
    ensures
        parsed_view_as(
            r,
            input,
            old(subs)@,
            final(subs)@,
            grammar::parse_local_entity(
                input.buffer(),
                state_of(input, old(subs)@),
                depth as nat,
                *cfg,
            ),
        ),
    decreases cfg.max_depth - depth, input.buffer().len() - input.index(), 16nat,
{
    proof {
        reveal(grammar::parse_local_entity);
    }
    match input.peek() {
        None => Err(Error::UnexpectedEnd),
        Some(b) => if b == ('s' as u8) {
            Ok((LocalEntity::StringLiteral, input.bump()))
        } else if b == ('U' as u8) {
            match input.peek_second() {
                None => Err(Error::UnexpectedEnd),
                Some(c) => if c == ('l' as u8) {
                    match parse_closure(subs, input, depth, cfg) {
                        Err(e) => Err(e),
                        Ok(((types, index), rest)) => Ok((LocalEntity::Closure(types, index), rest)),
                    }
                } else {
                    match parse_name(subs, input, depth, cfg) {
                        Err(e) => Err(e),
                        Ok((n, rest)) => Ok((LocalEntity::Name(n), rest)),
                    }
                },
            }
        } else {
            match parse_name(subs, input, depth, cfg) {
                Err(e) => Err(e),
                Ok((n, rest)) => Ok((LocalEntity::Name(n), rest)),
            }
        },
    }
}

} // verus!
