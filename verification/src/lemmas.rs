//! What holds of the grammar, proved of its functions.

pub mod cut;
pub mod handles;
pub mod leaves;
pub mod nesting;
pub mod nesting_in_names;
