//! Every handle that the grammar makes is the index of an entry that the
//! table holds by then, and the table only ever grows: an entry that was
//! found is found again, unchanged, whatever is parsed later.
//!
//! For each production a lemma says so of its result, given that the table
//! it began with is acyclic.

pub mod closure;
pub mod encoding;
pub mod expression;
pub mod local;
pub mod name;
pub mod nested;
pub mod operands;
pub mod prefix;
pub mod template_args;
pub mod type_list;
pub mod types;
pub mod unqualified;
