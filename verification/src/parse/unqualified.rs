//! The productions for names without a scope.
use vstd::prelude::*;
use crate::ast::{OperatorName, UnqualifiedName, UnscopedName};
use crate::error::Error;
use crate::grammar;
use crate::grammar::ParseOptions;
use crate::index_str::IndexStr;
use crate::lex;
use crate::parse::types::parse_type;
use crate::parse::{parsed_as, state_of};
use crate::subs::SubstitutionTable;

verus! {

/// `<unscoped-name>`
pub fn parse_unscoped_name<'a>(
    subs: &mut SubstitutionTable,
    input: IndexStr<'a>,
    depth: usize,
    cfg: &ParseOptions,
) -> (r: Result<(UnscopedName, IndexStr<'a>), Error>)
    ensures
        parsed_as(
            r,
            input,
            old(subs)@,
            final(subs)@,
            grammar::parse_unscoped_name(
                input.buffer(),
                state_of(input, old(subs)@),
                depth as nat,
                *cfg,
            ),
        ),
    decreases cfg.max_depth - depth, input.buffer().len() - input.index(), 12nat,
{
    proof {
        reveal(grammar::parse_unscoped_name);
        reveal(grammar::parse_unqualified_name);
    }
    if lex::starts_std_name(&input) {
        match parse_unqualified_name(subs, input.bump2(), depth, cfg) {
            Err(e) => Err(e),
            Ok((n, rest)) => Ok((UnscopedName::Std(n), rest)),
        }
    } else {
        match parse_unqualified_name(subs, input, depth, cfg) {
            Err(e) => Err(e),
            Ok((n, rest)) => Ok((UnscopedName::Unqualified(n), rest)),
        }
    }
}

/// `<unqualified-name>`
pub fn parse_unqualified_name<'a>(
    subs: &mut SubstitutionTable,
    input: IndexStr<'a>,
    depth: usize,
    cfg: &ParseOptions,
) -> (r: Result<(UnqualifiedName, IndexStr<'a>), Error>)
    ensures
        parsed_as(
            r,
            input,
            old(subs)@,
            final(subs)@,
            grammar::parse_unqualified_name(
                input.buffer(),
                state_of(input, old(subs)@),
                depth as nat,
                *cfg,
            ),
        ),
    decreases cfg.max_depth - depth, input.buffer().len() - input.index(), 10nat,
{
    proof {
        reveal(grammar::parse_unqualified_name);
        reveal(grammar::parse_operator_name);
    }
    match input.peek() {
        None => Err(Error::UnexpectedEnd),
        Some(b) => if lex::is_digit(b) {
            match lex::parse_source_name(input) {
                Err(e) => Err(e),
                Ok((n, rest)) => Ok((UnqualifiedName::Source(n), rest)),
            }
        } else if b == ('C' as u8) || b == ('D' as u8) {
            match lex::parse_ctor_dtor_name(input) {
                Err(e) => Err(e),
                Ok((n, rest)) => Ok((UnqualifiedName::CtorDtor(n), rest)),
            }
        } else if lex::is_lower(b) {
            match parse_operator_name(subs, input, depth, cfg) {
                Err(e) => Err(e),
                Ok((n, rest)) => Ok((UnqualifiedName::Operator(n), rest)),
            }
        } else if b == ('U' as u8) {
            match input.peek_second() {
                None => Err(Error::UnexpectedEnd),
                Some(c) => if c == ('t' as u8) {
                    match lex::parse_unnamed_index(input.bump2()) {
                        Err(e) => Err(e),
                        Ok((index, rest)) => Ok((UnqualifiedName::UnnamedType(index), rest)),
                    }
                } else {
                    Err(Error::UnexpectedToken)
                },
            }
        } else {
            Err(Error::UnexpectedToken)
        },
    }
}

/// `<operator-name>`
pub fn parse_operator_name<'a>(
    subs: &mut SubstitutionTable,
    input: IndexStr<'a>,
    depth: usize,
    cfg: &ParseOptions,
) -> (r: Result<(OperatorName, IndexStr<'a>), Error>)
    ensures
        parsed_as(
            r,
            input,
            old(subs)@,
            final(subs)@,
            grammar::parse_operator_name(
                input.buffer(),
                state_of(input, old(subs)@),
                depth as nat,
                *cfg,
            ),
        ),
    decreases cfg.max_depth - depth, input.buffer().len() - input.index(), 9nat,
{
    proof {
        reveal(grammar::parse_operator_name);
    }
    match input.peek() {
        None => Err(Error::UnexpectedEnd),
        Some(a) => match input.peek_second() {
            None => Err(Error::UnexpectedEnd),
            Some(b) => if a == ('c' as u8) && b == ('v' as u8) {
                match input.peek_third() {
                    None => Err(Error::UnexpectedEnd),
                    Some(_c) => if depth >= cfg.max_depth {
                        Err(Error::RecursionLimitExceeded)
                    } else {
                        match parse_type(subs, input.bump2(), depth + 1, cfg) {
                            Err(e) => Err(e),
                            Ok((h, rest)) => Ok((OperatorName::Cast(h), rest)),
                        }
                    },
                }
            } else if a == ('l' as u8) && b == ('i' as u8) {
                match lex::parse_source_name(input.bump2()) {
                    Err(e) => Err(e),
                    Ok((n, rest)) => Ok((OperatorName::Literal(n), rest)),
                }
            } else if lex::is_simple_operator(a, b) {
                Ok((OperatorName::Simple(a, b), input.bump2()))
            } else {
                Err(Error::UnexpectedToken)
            },
        },
    }
}

} // verus!
