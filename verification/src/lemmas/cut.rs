//! What a production makes of an input that was cut short.
//!
//! Let a production be accepted on an input, and let the input be cut
//! after its first `k` bytes. Where the match lies within those bytes, the
//! production gives the same node, the same position and the same table
//! on the cut input: a parse depends on nothing behind what it matched.
//! Where the cut lies inside the match, the production either fails with
//! `UnexpectedEnd` or matches the cut input up to its very end: it never
//! fails in another way, and never stops short of the cut.

use vstd::prelude::*;
use crate::error::Error;
use crate::grammar::Parsed;
use crate::index_str::peek_at;

pub mod closure;
pub mod encoding;
pub mod expression;
pub mod leaves;
pub mod local;
pub mod name;
pub mod nested;
pub mod operands;
pub mod prefix;
pub mod template_args;
pub mod type_list;
pub mod types;
pub mod unqualified;

verus! {

/// Whether `cut` fails with `UnexpectedEnd` or ends at `k`.
pub open spec fn ends_at<T>(cut: Parsed<T>, k: int) -> bool {
    match cut {
        Err(e) => e == Error::UnexpectedEnd,
        Ok((_, st)) => st.pos == k,
    }
}

/// Whether `cut` is what a production may give on the first `k` bytes of
/// an input on which it gives `full`.
pub open spec fn cut_of<T>(full: Parsed<T>, cut: Parsed<T>, k: int) -> bool {
    full matches Ok((_, st)) ==> if st.pos <= k {
        cut == full
    } else {
        ends_at(cut, k)
    }
}

/// [`ends_at`] for a production that reads no table.
pub open spec fn leaf_ends_at<T>(cut: Result<(T, int), Error>, k: int) -> bool {
    match cut {
        Err(e) => e == Error::UnexpectedEnd,
        Ok((_, end)) => end == k,
    }
}

/// [`cut_of`] for a production that reads no table.
pub open spec fn leaf_cut_of<T>(
    full: Result<(T, int), Error>,
    cut: Result<(T, int), Error>,
    k: int,
) -> bool {
    full matches Ok((_, end)) ==> if end <= k {
        cut == full
    } else {
        leaf_ends_at(cut, k)
    }
}

/// The cut input shows the bytes before the cut, and none behind it.
pub proof fn lemma_cut_input(input: Seq<u8>, k: int)
    requires
        0 <= k <= input.len(),
    ensures
        input.take(k).len() == k,
        forall|i: int| 0 <= i < k ==> #[trigger] input.take(k)[i] == input[i],
        forall|i: int|
            #[trigger] peek_at(input.take(k), i) == if i < k {
                peek_at(input, i)
            } else {
                None
            },
{
}

} // verus!
