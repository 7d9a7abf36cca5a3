//! The productions that read no other production, on an input cut short.

use vstd::prelude::*;
use crate::error::Error;
use crate::grammar;
use crate::index_str::peek_at;
use crate::lemmas::cut::{leaf_cut_of, lemma_cut_input};
use crate::lemmas::leaves::{lemma_digits_end, lemma_number, lemma_seq_id_end};

verus! {

/// A run of digits on the cut input ends where it ends on the whole, or
/// at the cut.
pub proof fn lemma_digits_end_cut(input: Seq<u8>, k: int, pos: int)
    requires
        0 <= pos <= k <= input.len(),
    ensures
        grammar::digits_end(input.take(k), pos) == if grammar::digits_end(input, pos) <= k {
            grammar::digits_end(input, pos)
        } else {
            k
        },
    decreases k - pos,
{
    lemma_digits_end(input, pos);
    if pos < k && grammar::is_digit(input[pos]) {
        lemma_digits_end_cut(input, k, pos + 1);
    }
}

/// Every byte of a run of digits is a digit.
pub proof fn lemma_digits_are_digits(input: Seq<u8>, pos: int, i: int)
    requires
        0 <= pos <= i < grammar::digits_end(input, pos),
    ensures
        i < input.len(),
        grammar::is_digit(input[i]),
    decreases i - pos,
{
    if pos < i {
        lemma_digits_are_digits(input, pos + 1, i);
    }
}

/// The digits before the cut write the same number on the cut input.
pub proof fn lemma_decimal_value_cut(input: Seq<u8>, k: int, start: int, end: int)
    requires
        0 <= start <= end <= k <= input.len(),
    ensures
        grammar::decimal_value(input.take(k), start, end) == grammar::decimal_value(
            input,
            start,
            end,
        ),
    decreases end - start,
{
    if start < end {
        lemma_decimal_value_cut(input, k, start, end - 1);
    }
}

/// Digits that begin with one that is not `0` write a number that is not 0.
pub proof fn lemma_decimal_value_positive(input: Seq<u8>, start: int, end: int)
    requires
        0 <= start < end <= grammar::digits_end(input, start),
        input[start] != '0' as u8,
    ensures
        grammar::decimal_value(input, start, end) >= 1,
    decreases end - start,
{
    lemma_digits_are_digits(input, start, end - 1);
    lemma_digits_are_digits(input, start, start);
    if start < end - 1 {
        lemma_decimal_value_positive(input, start, end - 1);
    } else {
        assert(grammar::decimal_value(input, start, start) == 0);
    }
}

pub proof fn lemma_suffix_end_cut(input: Seq<u8>, k: int, pos: int)
    requires
        0 <= pos <= k <= input.len(),
    ensures
        grammar::suffix_end(input.take(k), pos) == if grammar::suffix_end(input, pos) <= k {
            grammar::suffix_end(input, pos)
        } else {
            k
        },
    decreases k - pos,
{
    crate::lemmas::leaves::lemma_suffix_end(input, pos);
    if pos < k && grammar::is_suffix_byte(input[pos]) {
        lemma_suffix_end_cut(input, k, pos + 1);
    }
}

pub proof fn lemma_seq_id_end_cut(input: Seq<u8>, k: int, pos: int)
    requires
        0 <= pos <= k <= input.len(),
    ensures
        grammar::seq_id_end(input.take(k), pos) == if grammar::seq_id_end(input, pos) <= k {
            grammar::seq_id_end(input, pos)
        } else {
            k
        },
    decreases k - pos,
{
    lemma_seq_id_end(input, pos);
    if pos < k && (grammar::is_digit(input[pos]) || grammar::is_upper(input[pos])) {
        lemma_seq_id_end_cut(input, k, pos + 1);
    }
}

pub proof fn lemma_base36_value_cut(input: Seq<u8>, k: int, start: int, end: int)
    requires
        0 <= start <= end <= k <= input.len(),
    ensures
        grammar::base36_value(input.take(k), start, end) == grammar::base36_value(
            input,
            start,
            end,
        ),
    decreases end - start,
{
    if start < end {
        lemma_base36_value_cut(input, k, start, end - 1);
    }
}

pub proof fn lemma_number_cut(input: Seq<u8>, k: int, pos: int)
    requires
        0 <= pos <= k <= input.len(),
    ensures
        leaf_cut_of(
            grammar::parse_number(input, pos),
            grammar::parse_number(input.take(k), pos),
            k,
        ),
{
    reveal(grammar::parse_number);
    lemma_cut_input(input, k);
    lemma_digits_end(input, pos);
    lemma_digits_end_cut(input, k, pos);
    if pos + 1 <= input.len() {
        lemma_digits_end(input, pos + 1);
    }
    if pos + 1 <= k {
        lemma_digits_end_cut(input, k, pos + 1);
    }
}

/// A number at the end of the input is an `UnexpectedEnd`.
pub proof fn lemma_number_at_end(input: Seq<u8>, pos: int)
    requires
        pos >= input.len(),
    ensures
        grammar::parse_number(input, pos) == Err::<(crate::ast::Number, int), Error>(
            Error::UnexpectedEnd,
        ),
{
    reveal(grammar::parse_number);
}

pub proof fn lemma_source_name_cut(input: Seq<u8>, k: int, pos: int)
    requires
        0 <= pos <= k <= input.len(),
    ensures
        leaf_cut_of(
            grammar::parse_source_name(input, pos),
            grammar::parse_source_name(input.take(k), pos),
            k,
        ),
{
    reveal(grammar::parse_source_name);
    lemma_cut_input(input, k);
    lemma_digits_end(input, pos);
    lemma_digits_end_cut(input, k, pos);
    let start = grammar::digits_end(input, pos);
    if start <= k {
        lemma_decimal_value_cut(input, k, pos, start);
    } else if pos < k {
        lemma_decimal_value_cut(input, k, pos, k);
        if input[pos] != '0' as u8 {
            lemma_decimal_value_positive(input, pos, k);
        }
    }
}

pub proof fn lemma_substitution_cut(input: Seq<u8>, k: int, pos: int, count: nat)
    requires
        0 <= pos <= k <= input.len(),
    ensures
        leaf_cut_of(
            grammar::parse_substitution(input, pos, count),
            grammar::parse_substitution(input.take(k), pos, count),
            k,
        ),
{
    reveal(grammar::parse_substitution);
    lemma_cut_input(input, k);
    if pos + 1 <= input.len() {
        lemma_seq_id_end(input, pos + 1);
    }
    if pos + 1 <= k {
        lemma_seq_id_end_cut(input, k, pos + 1);
        let end = grammar::seq_id_end(input, pos + 1);
        if end <= k {
            lemma_base36_value_cut(input, k, pos + 1, end);
        }
    }
}

pub proof fn lemma_template_param_cut(input: Seq<u8>, k: int, pos: int)
    requires
        0 <= pos <= k <= input.len(),
    ensures
        leaf_cut_of(
            grammar::parse_template_param(input, pos),
            grammar::parse_template_param(input.take(k), pos),
            k,
        ),
{
    reveal(grammar::parse_template_param);
    lemma_cut_input(input, k);
    if pos + 1 <= input.len() {
        lemma_digits_end(input, pos + 1);
    }
    if pos + 1 <= k {
        lemma_digits_end_cut(input, k, pos + 1);
        let end = grammar::digits_end(input, pos + 1);
        if end <= k {
            lemma_decimal_value_cut(input, k, pos + 1, end);
        }
    }
}

pub proof fn lemma_discriminator_cut(input: Seq<u8>, k: int, pos: int)
    requires
        0 <= pos <= k <= input.len(),
    ensures
        leaf_cut_of(
            grammar::parse_discriminator(input, pos),
            grammar::parse_discriminator(input.take(k), pos),
            k,
        ),
{
    reveal(grammar::parse_discriminator);
    lemma_cut_input(input, k);
    if pos + 2 <= input.len() {
        lemma_digits_end(input, pos + 2);
    }
    if pos + 2 <= k {
        lemma_digits_end_cut(input, k, pos + 2);
        let end = grammar::digits_end(input, pos + 2);
        if end <= k {
            lemma_decimal_value_cut(input, k, pos + 2, end);
        }
    }
}

/// At the end of the input there is no discriminator.
pub proof fn lemma_discriminator_at_end(input: Seq<u8>, pos: int)
    requires
        pos >= input.len(),
    ensures
        grammar::parse_discriminator(input, pos) == Ok::<(Option<usize>, int), Error>((None, pos)),
{
    reveal(grammar::parse_discriminator);
}

pub proof fn lemma_unnamed_index_cut(input: Seq<u8>, k: int, pos: int)
    requires
        0 <= pos <= k <= input.len(),
    ensures
        leaf_cut_of(
            grammar::parse_unnamed_index(input, pos),
            grammar::parse_unnamed_index(input.take(k), pos),
            k,
        ),
{
    reveal(grammar::parse_unnamed_index);
    lemma_cut_input(input, k);
    lemma_digits_end(input, pos);
    lemma_digits_end_cut(input, k, pos);
    let end = grammar::digits_end(input, pos);
    if end <= k {
        lemma_decimal_value_cut(input, k, pos, end);
    }
}

/// The number of an unnamed type at the end of the input is an
/// `UnexpectedEnd`.
pub proof fn lemma_unnamed_index_at_end(input: Seq<u8>, pos: int)
    requires
        pos >= input.len(),
    ensures
        grammar::parse_unnamed_index(input, pos) == Err::<(Option<usize>, int), Error>(
            Error::UnexpectedEnd,
        ),
{
    reveal(grammar::parse_unnamed_index);
}

pub proof fn lemma_ctor_dtor_name_cut(input: Seq<u8>, k: int, pos: int)
    requires
        0 <= pos <= k <= input.len(),
    ensures
        leaf_cut_of(
            grammar::parse_ctor_dtor_name(input, pos),
            grammar::parse_ctor_dtor_name(input.take(k), pos),
            k,
        ),
{
    reveal(grammar::parse_ctor_dtor_name);
    lemma_cut_input(input, k);
}

pub proof fn lemma_array_dimension_cut(input: Seq<u8>, k: int, pos: int)
    requires
        0 <= pos <= k <= input.len(),
    ensures
        leaf_cut_of(
            grammar::parse_array_dimension(input, pos),
            grammar::parse_array_dimension(input.take(k), pos),
            k,
        ),
        grammar::parse_array_dimension(input, pos) matches Ok((Some(_), _))
            ==> !(grammar::parse_array_dimension(input.take(k), pos) matches Ok((None, _))),
{
    reveal(grammar::parse_array_dimension);
    lemma_cut_input(input, k);
    lemma_digits_end(input, pos);
    lemma_digits_end_cut(input, k, pos);
}

pub proof fn lemma_call_offset_cut(input: Seq<u8>, k: int, pos: int)
    requires
        0 <= pos <= k <= input.len(),
    ensures
        leaf_cut_of(
            grammar::parse_call_offset(input, pos),
            grammar::parse_call_offset(input.take(k), pos),
            k,
        ),
{
    reveal(grammar::parse_call_offset);
    lemma_cut_input(input, k);
    lemma_number(input, pos + 1);
    if pos + 1 <= k {
        lemma_number_cut(input, k, pos + 1);
    }
    match grammar::parse_number(input, pos + 1) {
        Ok((_, p1)) => {
            lemma_number(input, p1 + 1);
            if p1 + 1 <= k {
                lemma_number_cut(input, k, p1 + 1);
            } else {
                lemma_number_at_end(input.take(k), p1 + 1);
            }
        },
        Err(_) => {},
    }
}

/// A call offset at the end of the input is an `UnexpectedEnd`.
pub proof fn lemma_call_offset_at_end(input: Seq<u8>, pos: int)
    requires
        pos >= input.len(),
    ensures
        grammar::parse_call_offset(input, pos) == Err::<(crate::ast::CallOffset, int), Error>(
            Error::UnexpectedEnd,
        ),
{
    reveal(grammar::parse_call_offset);
}

/// The dimension of an array at the end of the input is an
/// `UnexpectedEnd`.
pub proof fn lemma_array_dimension_at_end(input: Seq<u8>, pos: int)
    requires
        pos >= input.len(),
    ensures
        grammar::parse_array_dimension(input, pos) == Err::<
            (Option<crate::ast::Number>, int),
            Error,
        >(Error::UnexpectedEnd),
{
    reveal(grammar::parse_array_dimension);
}

/// `St` is the abbreviation for `std`.
pub proof fn lemma_std_is_substitution(input: Seq<u8>, pos: int, count: nat)
    requires
        peek_at(input, pos) == Some('S' as u8),
        peek_at(input, pos + 1) == Some('t' as u8),
    ensures
        grammar::parse_substitution(input, pos, count) == Ok::<
            (crate::ast::Substitution, int),
            Error,
        >(
            (
                crate::ast::Substitution::WellKnown(crate::ast::WellKnownComponent('t' as u8)),
                pos + 2,
            ),
        ),
{
    reveal(grammar::parse_substitution);
}

} // verus!
