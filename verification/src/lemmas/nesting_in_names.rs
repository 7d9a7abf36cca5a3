//! A mangled name whose first parameter is nested too deeply is refused.

use vstd::prelude::*;
use crate::error::Error;
use crate::grammar;
use crate::grammar::{ParseOptions, ParseState};
use crate::index_str::peek_at;
use crate::lemmas::nesting::{lemma_nested_wrappers_exceed_limit, nested_wrappers};
use crate::model;

verus! {

/// Where the encoding of a mangled name begins: behind the `_Z`.
pub open spec fn encoding_start(input: Seq<u8>, cfg: ParseOptions) -> ParseState {
    ParseState { pos: grammar::mangled_start(input, cfg) + 2, subs: Seq::empty() }
}

/// Whether `input` begins as the mangled name of a function does: `_Z`, and
/// a name that the grammar accepts. The state is the one behind the name.
pub open spec fn names_function(input: Seq<u8>, cfg: ParseOptions, behind: ParseState) -> bool {
    let start = grammar::mangled_start(input, cfg);
    &&& peek_at(input, start) == Some('_' as u8)
    &&& peek_at(input, start + 1) == Some('Z' as u8)
    &&& peek_at(input, start + 2) != Some('T' as u8)
    &&& peek_at(input, start + 2) != Some('G' as u8)
    &&& grammar::parse_name(input, encoding_start(input, cfg), 0, cfg) matches Ok((_, st))
    &&& st == behind
}

/// The mangled name of a function whose first parameter type begins with
/// more wrappers, one in the other, than the limit allows is a
/// `RecursionLimitExceeded`, for the tolerant parse and for the parse of the
/// whole input alike.
pub proof fn lemma_deep_parameter_is_refused(
    input: Seq<u8>,
    cfg: ParseOptions,
    behind: ParseState,
    n: nat,
)
    requires
        names_function(input, cfg, behind),
        nested_wrappers(input, behind.pos, n),
        n > cfg.max_depth,
    ensures
        grammar::parse_mangled_name(input, cfg) == Err::<(model::MangledName, ParseState), Error>(
            Error::RecursionLimitExceeded,
        ),
        grammar::parse_whole(input, cfg) == Err::<(model::MangledName, ParseState), Error>(
            Error::RecursionLimitExceeded,
        ),
{
    reveal(grammar::parse_mangled_name);
    reveal(grammar::parse_whole);
    reveal(grammar::parse_encoding);
    reveal(grammar::parse_type_list);
    lemma_nested_wrappers_exceed_limit(input, behind, 0, cfg, n);
}

} // verus!
