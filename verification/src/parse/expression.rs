//! The production for expressions.

use vstd::prelude::*;
use crate::ast::Expression;
use crate::error::Error;
use crate::grammar;
use crate::grammar::ParseOptions;
use crate::index_str::IndexStr;
use crate::lex;
use crate::parse::operands::parse_operands;
use crate::parse::types::parse_type;
use crate::parse::{parsed_as, state_of};
use crate::subs::SubstitutionTable;

verus! {

/// The last of the operands, taken out of them.
fn last_operand(operands: &mut Vec<Expression>) -> (x: Box<Expression>)
    requires
        old(operands)@.len() > 0,
    ensures
        *x == old(operands)@[old(operands)@.len() - 1],
        final(operands)@ == old(operands)@.subrange(0, old(operands)@.len() - 1),
{
    match operands.pop() {
        Some(x) => Box::new(x),
        None => Box::new(Expression::SizeofType(crate::ast::TypeHandle::BackReference(0))),
    }
}

/// The expression that the operator with the given code makes of its
/// operands.
fn operator_expression(a: u8, b: u8, operands: Vec<Expression>) -> (e: Expression)
    requires
        grammar::operand_count(a, b) > 0,
        operands@.len() == grammar::operand_count(a, b),
    ensures
        e == grammar::operator_expression(a, b, operands@),
{
    let mut operands = operands;
    if a == ('s' as u8) && b == ('z' as u8) {
        Expression::SizeofExpr(last_operand(&mut operands))
    } else if a == ('q' as u8) && b == ('u' as u8) {
        let z = last_operand(&mut operands);
        let y = last_operand(&mut operands);
        let x = last_operand(&mut operands);
        Expression::Conditional(x, y, z)
    } else if lex::is_unary_operator(a, b) {
        Expression::Unary(a, b, last_operand(&mut operands))
    } else {
        let y = last_operand(&mut operands);
        let x = last_operand(&mut operands);
        Expression::Binary(a, b, x, y)
    }
}

/// `<expression>`
pub fn parse_expression<'a>(
    subs: &mut SubstitutionTable,
    input: IndexStr<'a>,
    depth: usize,
    cfg: &ParseOptions,
) -> (r: Result<(Expression, IndexStr<'a>), Error>)
    ensures
        parsed_as(
            r,
            input,
            old(subs)@,
            final(subs)@,
            grammar::parse_expression(
                input.buffer(),
                state_of(input, old(subs)@),
                depth as nat,
                *cfg,
            ),
        ),
    decreases cfg.max_depth - depth, input.buffer().len() - input.index(), 40nat,
{
    proof {
        reveal(grammar::parse_expression);
    }
    let a = match input.peek() {
        None => {
            return Err(Error::UnexpectedEnd);
        },
        Some(a) => a,
    };
    if depth >= cfg.max_depth {
        Err(Error::RecursionLimitExceeded)
    } else if a == ('T' as u8) {
        match lex::parse_template_param(input) {
            Err(e) => Err(e),
            Ok((p, rest)) => Ok((Expression::TemplateParam(p), rest)),
        }
    } else if a == ('L' as u8) {
        match parse_type(subs, input.bump(), depth + 1, cfg) {
            Err(e) => Err(e),
            Ok((ty, p1)) => match p1.peek() {
                None => Err(Error::UnexpectedEnd),
                Some(e) => if e == ('E' as u8) {
                    Ok((Expression::Literal(ty, None), p1.bump()))
                } else {
                    match lex::parse_number(p1) {
                        Err(e) => Err(e),
                        Ok((value, p2)) => match p2.peek() {
                            None => Err(Error::UnexpectedEnd),
                            Some(e) => if e != ('E' as u8) {
                                Err(Error::UnexpectedToken)
                            } else {
                                Ok((Expression::Literal(ty, Some(value)), p2.bump()))
                            },
                        },
                    }
                },
            },
        }
    } else {
        match input.peek_second() {
            None => Err(Error::UnexpectedEnd),
            Some(b) => if a == ('s' as u8) && b == ('t' as u8) {
                match parse_type(subs, input.bump2(), depth + 1, cfg) {
                    Err(e) => Err(e),
                    Ok((ty, rest)) => Ok((Expression::SizeofType(ty), rest)),
                }
            } else if a == ('c' as u8) && b == ('v' as u8) {
                match parse_type(subs, input.bump2(), depth + 1, cfg) {
                    Err(e) => Err(e),
                    Ok((ty, p1)) => match parse_operands(subs, p1, depth + 1, cfg, 1) {
                        Err(e) => Err(e),
                        Ok((operands, rest)) => {
                            let mut operands = operands;
                            Ok((Expression::Cast(ty, last_operand(&mut operands)), rest))
                        },
                    },
                }
            } else if lex::operand_count(a, b) > 0 {
                match parse_operands(subs, input.bump2(), depth + 1, cfg, lex::operand_count(a, b)) {
                    Err(e) => Err(e),
                    Ok((operands, rest)) => Ok((operator_expression(a, b, operands), rest)),
                }
            } else {
                Err(Error::UnexpectedToken)
            },
        }
    }
}

} // verus!
