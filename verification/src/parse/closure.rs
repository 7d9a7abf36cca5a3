//! The production for the types of lambda expressions.

use vstd::prelude::*;
use crate::ast::BareFunctionType;
use crate::error::Error;
use crate::grammar;
use crate::grammar::ParseOptions;
use crate::index_str::IndexStr;
use crate::lex;
use crate::parse::type_list::parse_type_list;
use crate::parse::{extends, state_of};
use crate::subs::SubstitutionTable;

verus! {

/// `<closure-type-name>`
pub fn parse_closure<'a>(
    subs: &mut SubstitutionTable,
    input: IndexStr<'a>,
    depth: usize,
    cfg: &ParseOptions,
) -> (r: Result<((BareFunctionType, Option<usize>), IndexStr<'a>), Error>)
    ensures
        extends(final(subs)@, old(subs)@),
        match grammar::parse_closure(
            input.buffer(),
            state_of(input, old(subs)@),
            depth as nat,
            *cfg,
        ) {
            Ok(((types, index), st)) => r matches Ok(((t, i), rest)) && t@ == types && i == index
                && rest.buffer() == input.buffer() && rest.index() == st.pos && final(subs)@
                == st.subs && input.index() < st.pos <= input.buffer().len(),
            Err(e) => r matches Err(x) && x == e,
        },
    decreases cfg.max_depth - depth, input.buffer().len() - input.index(), 10nat,
{
    proof {
        reveal(grammar::parse_closure);
    }
    match input.peek() {
        None => Err(Error::UnexpectedEnd),
        Some(u) => if u != ('U' as u8) {
            Err(Error::UnexpectedToken)
        } else {
            match input.peek_second() {
                None => Err(Error::UnexpectedEnd),
                Some(l) => if l != ('l' as u8) {
                    Err(Error::UnexpectedToken)
                } else {
                    match input.peek_third() {
                        None => Err(Error::UnexpectedEnd),
                        Some(c) => if depth >= cfg.max_depth {
                            Err(Error::RecursionLimitExceeded)
                        } else if !lex::is_type_start(c) {
                            Err(Error::UnexpectedToken)
                        } else {
                            match parse_type_list(subs, input.bump2(), depth + 1, cfg) {
                                Err(e) => Err(e),
                                Ok((types, p1)) => match p1.peek() {
                                    None => Err(Error::UnexpectedEnd),
                                    Some(e) => if e != ('E' as u8) {
                                        Err(Error::UnexpectedToken)
                                    } else {
                                        match lex::parse_unnamed_index(p1.bump()) {
                                            Err(e) => Err(e),
                                            Ok((index, rest)) => Ok(((types, index), rest)),
                                        }
                                    },
                                },
                            }
                        },
                    }
                },
            }
        },
    }
}

} // verus!
