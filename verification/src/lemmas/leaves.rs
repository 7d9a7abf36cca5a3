//! The productions that read no other production end behind where they
//! began, inside the input.

use vstd::prelude::*;
use crate::ast::Substitution;
use crate::grammar;

verus! {

/// A run of digits ends at or behind its start, inside the input.
pub proof fn lemma_digits_end(input: Seq<u8>, pos: int)
    requires
        0 <= pos <= input.len(),
    ensures
        pos <= grammar::digits_end(input, pos) <= input.len(),
        grammar::starts_digit(input, pos) ==> pos < grammar::digits_end(input, pos),
    decreases input.len() - pos,
{
    if pos < input.len() && grammar::is_digit(input[pos]) {
        lemma_digits_end(input, pos + 1);
    }
}

/// A run of digits and capital letters ends at or behind its start, inside
/// the input.
pub proof fn lemma_seq_id_end(input: Seq<u8>, pos: int)
    requires
        0 <= pos <= input.len(),
    ensures
        pos <= grammar::seq_id_end(input, pos) <= input.len(),
    decreases input.len() - pos,
{
    if pos < input.len() && (grammar::is_digit(input[pos]) || grammar::is_upper(input[pos])) {
        lemma_seq_id_end(input, pos + 1);
    }
}

/// A run of suffix bytes ends at or behind its start, inside the input.
pub proof fn lemma_suffix_end(input: Seq<u8>, pos: int)
    requires
        0 <= pos <= input.len(),
    ensures
        pos <= grammar::suffix_end(input, pos) <= input.len(),
    decreases input.len() - pos,
{
    if pos < input.len() && grammar::is_suffix_byte(input[pos]) {
        lemma_suffix_end(input, pos + 1);
    }
}

pub proof fn lemma_number(input: Seq<u8>, pos: int)
    requires
        0 <= pos,
    ensures
        grammar::parse_number(input, pos) matches Ok((_, end)) ==> pos < end <= input.len(),
{
    reveal(grammar::parse_number);
    if pos < input.len() {
        lemma_digits_end(input, pos);
        lemma_digits_end(input, pos + 1);
    }
}

pub proof fn lemma_source_name(input: Seq<u8>, pos: int)
    requires
        0 <= pos,
    ensures
        grammar::parse_source_name(input, pos) matches Ok((_, end)) ==> pos < end <= input.len(),
{
    reveal(grammar::parse_source_name);
    if pos < input.len() {
        lemma_digits_end(input, pos);
    }
}

/// A substitution that is accepted ends behind where it began, and a
/// back-reference in it is the index of an entry that the table has.
pub proof fn lemma_substitution(input: Seq<u8>, pos: int, count: nat)
    requires
        0 <= pos,
    ensures
        grammar::parse_substitution(input, pos, count) matches Ok((sub, end)) ==> pos < end
            <= input.len() && (sub matches Substitution::BackReference(i) ==> i < count),
{
    reveal(grammar::parse_substitution);
    if pos + 1 < input.len() {
        lemma_seq_id_end(input, pos + 1);
    }
}

pub proof fn lemma_template_param(input: Seq<u8>, pos: int)
    requires
        0 <= pos,
    ensures
        grammar::parse_template_param(input, pos) matches Ok((_, end)) ==> pos < end <= input.len(),
{
    reveal(grammar::parse_template_param);
    if pos + 1 < input.len() {
        lemma_digits_end(input, pos + 1);
    }
}

pub proof fn lemma_discriminator(input: Seq<u8>, pos: int)
    requires
        0 <= pos <= input.len(),
    ensures
        grammar::parse_discriminator(input, pos) matches Ok((_, end)) ==> pos <= end
            <= input.len(),
{
    reveal(grammar::parse_discriminator);
    if pos + 2 <= input.len() {
        lemma_digits_end(input, pos + 2);
    }
}

pub proof fn lemma_unnamed_index(input: Seq<u8>, pos: int)
    requires
        0 <= pos,
    ensures
        grammar::parse_unnamed_index(input, pos) matches Ok((_, end)) ==> pos < end <= input.len(),
{
    reveal(grammar::parse_unnamed_index);
    if pos < input.len() {
        lemma_digits_end(input, pos);
    }
}

pub proof fn lemma_ctor_dtor_name(input: Seq<u8>, pos: int)
    requires
        0 <= pos,
    ensures
        grammar::parse_ctor_dtor_name(input, pos) matches Ok((_, end)) ==> pos < end
            <= input.len(),
{
    reveal(grammar::parse_ctor_dtor_name);
}

pub proof fn lemma_array_dimension(input: Seq<u8>, pos: int)
    requires
        0 <= pos,
    ensures
        grammar::parse_array_dimension(input, pos) matches Ok((_, end)) ==> pos < end
            <= input.len(),
{
    reveal(grammar::parse_array_dimension);
    if pos < input.len() {
        lemma_digits_end(input, pos);
    }
}

pub proof fn lemma_call_offset(input: Seq<u8>, pos: int)
    requires
        0 <= pos,
    ensures
        grammar::parse_call_offset(input, pos) matches Ok((_, end)) ==> pos < end <= input.len(),
{
    reveal(grammar::parse_call_offset);
    lemma_number(input, pos + 1);
    match grammar::parse_number(input, pos + 1) {
        Ok((_, p1)) => {
            lemma_number(input, p1 + 1);
        },
        Err(_) => {},
    }
}

} // verus!
