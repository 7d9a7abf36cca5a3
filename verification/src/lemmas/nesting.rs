//! Types that are nested too deeply are refused, however long the input.

use vstd::prelude::*;
use crate::error::Error;
use crate::grammar;
use crate::grammar::{ParseOptions, ParseState};
use crate::index_str::peek_at;

verus! {

/// Where the type begins that the wrapper at `pos` wraps: behind the `P`,
/// `R` or `O` of a pointer or a reference, or behind the `A`, the dimension
/// and the `_` of an array. `None` where no wrapper stands at `pos`.
pub open spec fn wrapped_at(input: Seq<u8>, pos: int) -> Option<int> {
    match peek_at(input, pos) {
        None => None,
        Some(b) => if b == 'P' as u8 || b == 'R' as u8 || b == 'O' as u8 {
            Some(pos + 1)
        } else if b == 'A' as u8 {
            match grammar::parse_array_dimension(input, pos + 1) {
                Ok((_, p1)) => Some(p1),
                Err(_) => None,
            }
        } else {
            None
        },
    }
}

/// Whether `n` wrappers stand at `pos`, each wrapping the next.
pub open spec fn nested_wrappers(input: Seq<u8>, pos: int, n: nat) -> bool
    decreases n,
{
    n == 0 || (wrapped_at(input, pos) matches Some(p) && nested_wrappers(input, p, (n - 1) as nat))
}

/// A type at nesting `depth` that begins with `n` wrappers, one in the
/// other, is a `RecursionLimitExceeded` where the innermost of them would
/// reach the limit: whatever follows the wrappers, and however many there
/// are.
pub proof fn lemma_nested_wrappers_exceed_limit(
    input: Seq<u8>,
    st: ParseState,
    depth: nat,
    cfg: ParseOptions,
    n: nat,
)
    requires
        nested_wrappers(input, st.pos, n),
        depth <= cfg.max_depth < depth + n,
    ensures
        grammar::parse_type(input, st, depth, cfg) == Err::<
            (crate::ast::TypeHandle, ParseState),
            Error,
        >(Error::RecursionLimitExceeded),
    decreases n,
{
    reveal(grammar::parse_type);
    if depth < cfg.max_depth {
        let p = wrapped_at(input, st.pos).unwrap();
        lemma_nested_wrappers_exceed_limit(input, st.at(p), depth + 1, cfg, (n - 1) as nat);
    }
}

} // verus!
