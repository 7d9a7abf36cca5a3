//! The parser: for each production of [`crate::grammar`] a function that
//! computes it, on a cursor and the substitution table.
//!
//! A function takes the cursor by value and hands back the cursor behind
//! what it matched; the table grows by the entries that the production
//! makes. On an error the entries made so far stay in the table: whoever
//! gives up the parse gives up the table with it.

use vstd::prelude::*;
use crate::ast::{PrefixHandle, Substitutable, Substitution, Type, TypeHandle};
use crate::error::Error;
use crate::grammar;
use crate::grammar::{ParseState, Parsed};
use crate::index_str::IndexStr;
use crate::model;
use crate::subs::SubstitutionTable;

pub mod closure;
pub mod encoding;
pub mod expression;
pub mod local;
pub mod name;
pub mod nested;
pub mod operands;
pub mod prefix;
pub mod template_args;
pub mod type_list;
pub mod types;
pub mod unqualified;

verus! {

/// Whether `later` holds the entries of `earlier`, each at its index, and
/// perhaps more behind them.
pub open spec fn extends<T>(later: Seq<T>, earlier: Seq<T>) -> bool {
    earlier.len() <= later.len() && forall|i: int|
        0 <= i < earlier.len() ==> later[i] == earlier[i]
}

/// The grammar's state for a cursor and the contents of a table.
pub open spec fn state_of(input: IndexStr, subs: Seq<model::Substitutable>) -> ParseState {
    ParseState { pos: input.index(), subs }
}

/// Whether `r` and the table `after` are what the grammar's function gave
/// as `want`, for a production parsed at `input` with the table `before`:
/// the same node, a cursor on the same buffer at the position behind it,
/// further on and inside the buffer, and the same table; or the same
/// error. Either way the table has only grown.
pub open spec fn parsed_as<'a, T>(
    r: Result<(T, IndexStr<'a>), Error>,
    input: IndexStr<'a>,
    before: Seq<model::Substitutable>,
    after: Seq<model::Substitutable>,
    want: Parsed<T>,
) -> bool {
    &&& extends(after, before)
    &&& match want {
        Ok((node, st)) => r matches Ok((n, rest)) && n == node && rest.buffer() == input.buffer()
            && rest.index() == st.pos && after == st.subs && input.index() < st.pos
            <= input.buffer().len(),
        Err(e) => r matches Err(x) && x == e,
    }
}

/// [`parsed_as`] for a node with a model: the model of the node that `r`
/// holds is the one that the grammar gave.
pub open spec fn parsed_view_as<'a, T: View>(
    r: Result<(T, IndexStr<'a>), Error>,
    input: IndexStr<'a>,
    before: Seq<model::Substitutable>,
    after: Seq<model::Substitutable>,
    want: Parsed<T::V>,
) -> bool {
    &&& extends(after, before)
    &&& match want {
        Ok((node, st)) => r matches Ok((n, rest)) && n@ == node && rest.buffer() == input.buffer()
            && rest.index() == st.pos && after == st.subs && input.index() < st.pos
            <= input.buffer().len(),
        Err(e) => r matches Err(x) && x == e,
    }
}

pub fn type_handle(sub: Substitution) -> (h: TypeHandle)
    ensures
        h == grammar::type_handle(sub),
{
    match sub {
        Substitution::WellKnown(w) => TypeHandle::WellKnown(w),
        Substitution::BackReference(i) => TypeHandle::BackReference(i),
    }
}

pub fn prefix_handle(sub: Substitution) -> (h: PrefixHandle)
    ensures
        h == grammar::prefix_handle(sub),
{
    match sub {
        Substitution::WellKnown(w) => PrefixHandle::WellKnown(w),
        Substitution::BackReference(i) => PrefixHandle::BackReference(i),
    }
}

/// Enters `ty` in the table and returns the handle to it.
pub fn insert_type(subs: &mut SubstitutionTable, ty: Type) -> (h: TypeHandle)
    ensures
        (h, ParseState { pos: 0, subs: final(subs)@ }) == (ParseState {
            pos: 0,
            subs: old(subs)@,
        }).insert_type(ty@),
        extends(final(subs)@, old(subs)@),
{
    let idx = subs.insert(Substitutable::Type(ty));
    TypeHandle::BackReference(idx)
}

} // verus!
