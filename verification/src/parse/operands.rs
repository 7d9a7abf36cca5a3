//! The production for the operands of an operator.

use vstd::prelude::*;
use crate::ast::Expression;
use crate::error::Error;
use crate::grammar;
use crate::grammar::ParseOptions;
use crate::index_str::IndexStr;
use crate::parse::expression::parse_expression;
use crate::parse::{extends, state_of};
use crate::subs::SubstitutionTable;

verus! {

/// `count` expressions, one behind the other.
pub fn parse_operands<'a>(
    subs: &mut SubstitutionTable,
    input: IndexStr<'a>,
    depth: usize,
    cfg: &ParseOptions,
    count: usize,
) -> (r: Result<(Vec<Expression>, IndexStr<'a>), Error>)
    ensures
        extends(final(subs)@, old(subs)@),
        match grammar::parse_operands(
            input.buffer(),
            state_of(input, old(subs)@),
            depth as nat,
            *cfg,
            count as nat,
            Seq::empty(),
        ) {
            Ok((operands, st)) => r matches Ok((list, rest)) && list@ == operands && list@.len()
                == count && rest.buffer() == input.buffer() && rest.index() == st.pos
                && final(subs)@ == st.subs && input.index() <= st.pos <= input.buffer().len()
                && (count > 0 ==> input.index() < st.pos),
            Err(e) => r matches Err(x) && x == e,
        },
    decreases cfg.max_depth - depth, input.buffer().len() - input.index(), 41nat,
{
    proof {
        reveal(grammar::parse_operands);
    }
    let ghost buf = input.buffer();
    let ghost before = subs@;
    let ghost want = grammar::parse_operands(
        buf,
        state_of(input, before),
        depth as nat,
        *cfg,
        count as nat,
        Seq::empty(),
    );
    let mut operands: Vec<Expression> = Vec::new();
    let mut cur = input;
    let _ = input.position();
    while operands.len() < count
        invariant
            cur.buffer() == buf,
            buf == input.buffer(),
            input.index() <= cur.index() <= buf.len(),
            operands@.len() <= count,
            operands@.len() > 0 ==> input.index() < cur.index(),
            extends(subs@, before),
            before == old(subs)@,
            want == grammar::parse_operands(
                buf,
                state_of(input, before),
                depth as nat,
                *cfg,
                count as nat,
                Seq::empty(),
            ),
            want == grammar::parse_operands(
                buf,
                state_of(cur, subs@),
                depth as nat,
                *cfg,
                (count - operands@.len()) as nat,
                operands@,
            ),
        decreases count - operands@.len(),
    {
        proof {
            reveal(grammar::parse_operands);
        }
        match parse_expression(subs, cur, depth, cfg) {
            Err(e) => {
                return Err(e);
            },
            Ok((x, rest)) => {
                operands.push(x);
                cur = rest;
            },
        }
    }
    Ok((operands, cur))
}

} // verus!
