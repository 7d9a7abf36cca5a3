//! The productions for template arguments.
use vstd::prelude::*;
use crate::ast::{TemplateArg, TemplateArgs};
use crate::error::Error;
use crate::grammar;
use crate::grammar::{ParseOptions, ParseState};
use crate::index_str::{peek_at, IndexStr};
use crate::lex;
use crate::parse::expression::parse_expression;
use crate::parse::types::parse_type;
use crate::parse::{extends, parsed_as, parsed_view_as, state_of};
use crate::subs::SubstitutionTable;

verus! {

/// `<template-args>`
pub fn parse_template_args<'a>(
    subs: &mut SubstitutionTable,
    input: IndexStr<'a>,
    depth: usize,
    cfg: &ParseOptions,
) -> (r: Result<(TemplateArgs, IndexStr<'a>), Error>)
    ensures
        parsed_view_as(
            r,
            input,
            old(subs)@,
            final(subs)@,
            grammar::parse_template_args(
                input.buffer(),
                state_of(input, old(subs)@),
                depth as nat,
                *cfg,
            ),
        ),
    decreases cfg.max_depth - depth, input.buffer().len() - input.index(), 32nat,
{
    proof {
        reveal(grammar::parse_template_args);
        reveal(grammar::parse_template_arg_list);
        reveal(grammar::parse_template_arg);
    }
    match input.peek() {
        None => {
            return Err(Error::UnexpectedEnd);
        },
        Some(b) => if b != ('I' as u8) {
            return Err(Error::UnexpectedToken);
        },
    }
    let ghost buf = input.buffer();
    let ghost before = subs@;
    let ghost want = grammar::parse_template_arg_list(
        buf,
        ParseState { pos: input.index() + 1, subs: before },
        depth as nat,
        *cfg,
        Seq::empty(),
    );
    let mut args: Vec<TemplateArg> = Vec::new();
    let mut cur = input.bump();
    loop
        invariant
            cur.buffer() == buf,
            buf == input.buffer(),
            input.index() < cur.index() <= buf.len(),
            extends(subs@, before),
            before == old(subs)@,
            want == grammar::parse_template_arg_list(
                buf,
                ParseState { pos: input.index() + 1, subs: before },
                depth as nat,
                *cfg,
                Seq::empty(),
            ),
            peek_at(buf, input.index()) == Some('I' as u8),
            want == grammar::parse_template_arg_list(
                buf,
                state_of(cur, subs@),
                depth as nat,
                *cfg,
                args@,
            ),
        decreases buf.len() - cur.index(),
    {
        proof {
            reveal(grammar::parse_template_args);
            reveal(grammar::parse_template_arg_list);
            reveal(grammar::parse_template_arg);
        }
        match cur.peek() {
            None => {
                return Err(Error::UnexpectedEnd);
            },
            Some(b) => if b == ('E' as u8) {
                if args.len() == 0 {
                    return Err(Error::UnexpectedToken);
                } else {
                    return Ok((TemplateArgs(args), cur.bump()));
                }
            } else {
                match parse_template_arg(subs, cur, depth, cfg) {
                    Err(e) => {
                        return Err(e);
                    },
                    Ok((arg, rest)) => {
                        args.push(arg);
                        cur = rest;
                    },
                }
            },
        }
    }
}

/// `<template-arg>`
pub fn parse_template_arg<'a>(
    subs: &mut SubstitutionTable,
    input: IndexStr<'a>,
    depth: usize,
    cfg: &ParseOptions,
) -> (r: Result<(TemplateArg, IndexStr<'a>), Error>)
    ensures
        parsed_as(
            r,
            input,
            old(subs)@,
            final(subs)@,
            grammar::parse_template_arg(
                input.buffer(),
                state_of(input, old(subs)@),
                depth as nat,
                *cfg,
            ),
        ),
    decreases cfg.max_depth - depth, input.buffer().len() - input.index(), 30nat,
{
    proof {
        reveal(grammar::parse_template_arg);
    }
    match input.peek() {
        None => Err(Error::UnexpectedEnd),
        Some(b) => if b == ('L' as u8) {
            match parse_type(subs, input.bump(), depth, cfg) {
                Err(e) => Err(e),
                Ok((ty, p1)) => match lex::parse_number(p1) {
                    Err(e) => Err(e),
                    Ok((value, p2)) => match p2.peek() {
                        None => Err(Error::UnexpectedEnd),
                        Some(e) => if e != ('E' as u8) {
                            Err(Error::UnexpectedToken)
                        } else {
                            Ok((TemplateArg::Literal(ty, value), p2.bump()))
                        },
                    },
                },
            }
        } else if b == ('X' as u8) {
            match parse_expression(subs, input.bump(), depth, cfg) {
                Err(e) => Err(e),
                Ok((value, p1)) => match p1.peek() {
                    None => Err(Error::UnexpectedEnd),
                    Some(e) => if e != ('E' as u8) {
                        Err(Error::UnexpectedToken)
                    } else {
                        Ok((TemplateArg::Expression(value), p1.bump()))
                    },
                },
            }
        } else {
            match parse_type(subs, input, depth, cfg) {
                Err(e) => Err(e),
                Ok((ty, rest)) => Ok((TemplateArg::Type(ty), rest)),
            }
        },
    }
}

} // verus!
