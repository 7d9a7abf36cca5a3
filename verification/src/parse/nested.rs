//! The production for names with their scope written out.
use vstd::prelude::*;
use crate::ast::NestedName;
use crate::error::Error;
use crate::grammar;
use crate::grammar::ParseOptions;
use crate::index_str::IndexStr;
use crate::lex;
use crate::parse::prefix::parse_prefix;
use crate::parse::{parsed_view_as, state_of};
use crate::subs::SubstitutionTable;

verus! {

/// `<nested-name>`
pub fn parse_nested_name<'a>(
    subs: &mut SubstitutionTable,
    input: IndexStr<'a>,
    depth: usize,
    cfg: &ParseOptions,
) -> (r: Result<(NestedName, IndexStr<'a>), Error>)
    ensures
        parsed_view_as(
            r,
            input,
            old(subs)@,
            final(subs)@,
            grammar::parse_nested_name(
                input.buffer(),
                state_of(input, old(subs)@),
                depth as nat,
                *cfg,
            ),
        ),
    decreases cfg.max_depth - depth, input.buffer().len() - input.index(), 14nat,
{
    proof {
        reveal(grammar::parse_nested_name);
    }
    match input.peek() {
        None => Err(Error::UnexpectedEnd),
        Some(b) => if b != ('N' as u8) {
            Err(Error::UnexpectedToken)
        } else {
            let (cv_qualifiers, p1) = lex::parse_cv_qualifiers(input.bump());
            let (ref_qualifier, p2) = lex::parse_ref_qualifier(p1);
            match parse_prefix(subs, p2, depth, cfg, None) {
                Err(e) => Err(e),
                Ok((name, rest)) => Ok(
                    (NestedName { cv_qualifiers, ref_qualifier, name }, rest.bump()),
                ),
            }
        },
    }
}

} // verus!
