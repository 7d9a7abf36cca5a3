//! The production for the types of a function.
use vstd::prelude::*;
use crate::ast::{BareFunctionType, TypeHandle};
use crate::error::Error;
use crate::grammar;
use crate::grammar::ParseOptions;
use crate::index_str::IndexStr;
use crate::lex;
use crate::parse::types::parse_type;
use crate::parse::{extends, state_of};
use crate::subs::SubstitutionTable;

verus! {

/// `<type>*`: the types that stand one behind the other at the cursor.
pub fn parse_type_list<'a>(
    subs: &mut SubstitutionTable,
    input: IndexStr<'a>,
    depth: usize,
    cfg: &ParseOptions,
) -> (r: Result<(BareFunctionType, IndexStr<'a>), Error>)
    ensures
        extends(final(subs)@, old(subs)@),
        match grammar::parse_type_list(
            input.buffer(),
            state_of(input, old(subs)@),
            depth as nat,
            *cfg,
            Seq::empty(),
        ) {
            Ok((types, st)) => r matches Ok((list, rest)) && list@ == types && rest.buffer()
                == input.buffer() && rest.index() == st.pos && final(subs)@ == st.subs
                && input.index() <= st.pos <= input.buffer().len() && (grammar::starts_type(
                input.buffer(),
                input.index(),
            ) ==> input.index() < st.pos),
            Err(e) => r matches Err(x) && x == e,
        },
    decreases cfg.max_depth - depth, input.buffer().len() - input.index(), 25nat,
{
    proof {
        reveal(grammar::parse_type_list);
    }
    let ghost buf = input.buffer();
    let ghost before = subs@;
    let ghost want = grammar::parse_type_list(
        buf,
        state_of(input, before),
        depth as nat,
        *cfg,
        Seq::empty(),
    );
    let mut types: Vec<TypeHandle> = Vec::new();
    let mut cur = input;
    let _ = input.position();
    while lex::starts_type(&cur)
        invariant
            cur.buffer() == buf,
            buf == input.buffer(),
            input.index() <= cur.index() <= buf.len(),
            extends(subs@, before),
            before == old(subs)@,
            want == grammar::parse_type_list(
                buf,
                state_of(input, before),
                depth as nat,
                *cfg,
                Seq::empty(),
            ),
            want == grammar::parse_type_list(
                buf,
                state_of(cur, subs@),
                depth as nat,
                *cfg,
                types@,
            ),
            grammar::starts_type(buf, input.index()) ==> input.index() < cur.index()
                || cur.index() == input.index() && grammar::starts_type(buf, cur.index()),
        decreases buf.len() - cur.index(),
    {
        proof {
            reveal(grammar::parse_type_list);
        }
        match parse_type(subs, cur, depth, cfg) {
            Err(e) => {
                return Err(e);
            },
            Ok((h, rest)) => {
                types.push(h);
                cur = rest;
            },
        }
    }
    Ok((BareFunctionType(types), cur))
}

} // verus!
