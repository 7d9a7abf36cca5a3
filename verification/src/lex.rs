//! The productions that need neither the substitution table nor one
//! another: numbers, identifiers, qualifiers and the short codes.

use vstd::prelude::*;
use crate::ast::{
    CallOffset, CtorDtorName, CvQualifiers, Number, RefQualifier, SourceName, Span,
    Substitution, TemplateParam, WellKnownComponent,
};
use crate::error::Error;
use crate::grammar;
use crate::index_str::{peek_at, IndexStr};

verus! {

/// Whether `r` is what the grammar's function gave as `want`, for a
/// production read at `input`: the same node and a cursor on the same
/// buffer at the position behind it, further on and inside the buffer, or
/// the same error.
pub open spec fn read_as<'a, T>(
    r: Result<(T, IndexStr<'a>), Error>,
    input: IndexStr<'a>,
    want: Result<(T, int), Error>,
) -> bool {
    match want {
        Ok((node, end)) => r matches Ok((n, rest)) && n == node && rest.buffer() == input.buffer()
            && rest.index() == end && input.index() < end <= input.buffer().len(),
        Err(e) => r matches Err(x) && x == e,
    }
}

pub fn is_digit(b: u8) -> (r: bool)
    ensures
        r == grammar::is_digit(b),
{
    ('0' as u8) <= b && b <= ('9' as u8)
}

pub fn is_lower(b: u8) -> (r: bool)
    ensures
        r == grammar::is_lower(b),
{
    ('a' as u8) <= b && b <= ('z' as u8)
}

pub fn is_upper(b: u8) -> (r: bool)
    ensures
        r == grammar::is_upper(b),
{
    ('A' as u8) <= b && b <= ('Z' as u8)
}

pub fn is_builtin_code(b: u8) -> (r: bool)
    ensures
        r == grammar::is_builtin_code(b),
{
    b == ('v' as u8) || b == ('w' as u8) || b == ('b' as u8) || b == ('c' as u8) || b == (
    'a' as u8) || b == ('h' as u8) || b == ('s' as u8) || b == ('t' as u8) || b == ('i' as u8)
        || b == ('j' as u8) || b == ('l' as u8) || b == ('m' as u8) || b == ('x' as u8) || b == (
    'y' as u8) || b == ('n' as u8) || b == ('o' as u8) || b == ('f' as u8) || b == ('d' as u8)
        || b == ('e' as u8) || b == ('g' as u8) || b == ('z' as u8)
}

pub fn is_extended_builtin_code(b: u8) -> (r: bool)
    ensures
        r == grammar::is_extended_builtin_code(b),
{
    b == ('d' as u8) || b == ('e' as u8) || b == ('f' as u8) || b == ('h' as u8) || b == (
    'i' as u8) || b == ('s' as u8) || b == ('a' as u8) || b == ('c' as u8) || b == ('n' as u8)
}

pub fn is_well_known_code(b: u8) -> (r: bool)
    ensures
        r == grammar::is_well_known_code(b),
{
    b == ('t' as u8) || b == ('a' as u8) || b == ('b' as u8) || b == ('s' as u8) || b == (
    'i' as u8) || b == ('o' as u8) || b == ('d' as u8)
}

pub fn is_simple_operator(a: u8, b: u8) -> (r: bool)
    ensures
        r == grammar::is_simple_operator(a, b),
{
    if a == ('n' as u8) {
        b == ('w' as u8) || b == ('a' as u8) || b == ('g' as u8) || b == ('e' as u8) || b == (
        't' as u8)
    } else if a == ('d' as u8) {
        b == ('l' as u8) || b == ('a' as u8) || b == ('e' as u8) || b == ('v' as u8) || b == (
        'V' as u8)
    } else if a == ('p' as u8) {
        b == ('s' as u8) || b == ('l' as u8) || b == ('L' as u8) || b == ('p' as u8) || b == (
        'm' as u8) || b == ('t' as u8)
    } else if a == ('a' as u8) {
        b == ('d' as u8) || b == ('n' as u8) || b == ('S' as u8) || b == ('N' as u8) || b == (
        'a' as u8)
    } else if a == ('c' as u8) {
        b == ('o' as u8) || b == ('m' as u8) || b == ('l' as u8)
    } else if a == ('m' as u8) {
        b == ('i' as u8) || b == ('l' as u8) || b == ('I' as u8) || b == ('L' as u8) || b == (
        'm' as u8)
    } else if a == ('r' as u8) {
        b == ('m' as u8) || b == ('M' as u8) || b == ('s' as u8) || b == ('S' as u8)
    } else if a == ('o' as u8) {
        b == ('r' as u8) || b == ('R' as u8) || b == ('o' as u8)
    } else if a == ('e' as u8) {
        b == ('o' as u8) || b == ('O' as u8) || b == ('q' as u8)
    } else if a == ('l' as u8) {
        b == ('s' as u8) || b == ('S' as u8) || b == ('t' as u8) || b == ('e' as u8)
    } else if a == ('g' as u8) {
        b == ('t' as u8) || b == ('e' as u8)
    } else if a == ('i' as u8) {
        b == ('x' as u8)
    } else if a == ('q' as u8) {
        b == ('u' as u8)
    } else {
        false
    }
}

pub fn is_unary_operator(a: u8, b: u8) -> (r: bool)
    ensures
        r == grammar::is_unary_operator(a, b),
{
    (a == 'p' as u8 && (b == 's' as u8 || b == 'p' as u8)) || (a == 'n' as u8 && (b == 'g' as u8
        || b == 't' as u8)) || (a == 'a' as u8 && b == 'd' as u8) || (a == 'd' as u8 && b
        == 'e' as u8) || (a == 'c' as u8 && b == 'o' as u8) || (a == 'm' as u8 && b == 'm' as u8)
}

pub fn is_binary_operator(a: u8, b: u8) -> (r: bool)
    ensures
        r == grammar::is_binary_operator(a, b),
{
    is_simple_operator(a, b) && !is_unary_operator(a, b) && !(a == 'n' as u8 && (b == 'w' as u8
        || b == 'a' as u8)) && !(a == 'd' as u8 && (b == 'l' as u8 || b == 'a' as u8)) && !(a
        == 'c' as u8 && b == 'l' as u8) && !(a == 'q' as u8 && b == 'u' as u8) && !(a == 'p' as u8
        && b == 't' as u8)
}

/// How many operands the operator with the given code takes in an
/// expression.
pub fn operand_count(a: u8, b: u8) -> (n: usize)
    ensures
        n == grammar::operand_count(a, b),
{
    if (a == 's' as u8 && b == 'z' as u8) || is_unary_operator(a, b) {
        1
    } else if a == 'q' as u8 && b == 'u' as u8 {
        3
    } else if is_binary_operator(a, b) {
        2
    } else {
        0
    }
}

pub fn is_unqualified_name_start(b: u8) -> (r: bool)
    ensures
        r == grammar::is_unqualified_name_start(b),
{
    is_digit(b) || is_lower(b) || b == ('C' as u8) || b == ('D' as u8) || b == ('U' as u8)
}

pub fn is_type_start(b: u8) -> (r: bool)
    ensures
        r == grammar::is_type_start(b),
{
    is_builtin_code(b) || is_digit(b) || b == 'D' as u8 || b == 'r' as u8 || b == 'V' as u8 || b
        == 'K' as u8 || b == 'P' as u8 || b == 'R' as u8 || b == 'O' as u8 || b == 'A' as u8 || b
        == 'F' as u8 || b == 'M' as u8 || b == 'T' as u8 || b == 'S' as u8 || b == 'N' as u8 || b
        == 'u' as u8 || b == 'C' as u8 || b == 'G' as u8 || b == 'U' as u8 || b == 'Z' as u8
}

/// Whether a type can begin at the cursor.
pub fn starts_type(input: &IndexStr) -> (r: bool)
    ensures
        r == grammar::starts_type(input.buffer(), input.index()),
{
    match input.peek() {
        Some(b) => is_type_start(b),
        None => false,
    }
}

/// Whether `St` and the beginning of a name stand at the cursor.
pub fn starts_std_name(input: &IndexStr) -> (r: bool)
    ensures
        r == grammar::starts_std_name(input.buffer(), input.index()),
{
    match (input.peek(), input.peek_second(), input.peek_third()) {
        (Some(s), Some(t), Some(n)) => s == ('S' as u8) && t == ('t' as u8)
            && is_unqualified_name_start(n),
        _ => false,
    }
}

/// Whether the byte `b` stands at the cursor.
pub fn at_byte(input: &IndexStr, b: u8) -> (r: bool)
    ensures
        r == (peek_at(input.buffer(), input.index()) == Some(b)),
        0 <= input.index() <= input.buffer().len(),
{
    match input.peek() {
        Some(c) => c == b,
        None => false,
    }
}

/// The span of the buffer between two cursors on it.
pub fn span_between(from: &IndexStr, to: &IndexStr) -> (s: Span)
    ensures
        s == grammar::span(from.index(), to.index()),
{
    Span { start: from.position(), end: to.position() }
}

/// Reads the decimal digits at the cursor. The value is `None` where it
/// does not fit a `usize`.
pub fn read_decimal<'a>(input: IndexStr<'a>) -> (r: (Option<usize>, IndexStr<'a>))
    ensures
        r.1.buffer() == input.buffer(),
        r.1.index() == grammar::digits_end(input.buffer(), input.index()),
        input.index() <= r.1.index() <= input.buffer().len(),
        match r.0 {
            Some(v) => v == grammar::decimal_value(input.buffer(), input.index(), r.1.index()),
            None => grammar::decimal_value(input.buffer(), input.index(), r.1.index())
                > usize::MAX,
        },
        grammar::starts_digit(input.buffer(), input.index()) ==> input.index() < r.1.index(),
        input.buffer().len() <= usize::MAX,
{
    let ghost buf = input.buffer();
    let ghost start = input.index();
    let mut cur = input;
    let mut value: Option<usize> = Some(0);
    let mut next = cur.peek();
    while next.is_some() && is_digit(next.unwrap())
        invariant
            cur.buffer() == buf,
            0 <= start <= cur.index() <= buf.len(),
            next == peek_at(buf, cur.index()),
            grammar::digits_end(buf, start) == grammar::digits_end(buf, cur.index()),
            grammar::starts_digit(buf, start) ==> start < cur.index() || next == peek_at(buf, start),
            buf.len() <= usize::MAX,
            match value {
                Some(v) => v == grammar::decimal_value(buf, start, cur.index()),
                None => grammar::decimal_value(buf, start, cur.index()) > usize::MAX,
            },
        decreases buf.len() - cur.index(),
    {
        let d: usize = (next.unwrap() - ('0' as u8)) as usize;
        value =
        match value {
            Some(v) => match v.checked_mul(10) {
                Some(w) => w.checked_add(d),
                None => None,
            },
            None => None,
        };
        cur = cur.bump();
        next = cur.peek();
    }
    (value, cur)
}

/// Reads the digits and capital letters at the cursor as a number in base
/// 36. The value is `None` where it does not fit a `usize`.
pub fn read_base36<'a>(input: IndexStr<'a>) -> (r: (Option<usize>, IndexStr<'a>))
    ensures
        r.1.buffer() == input.buffer(),
        r.1.index() == grammar::seq_id_end(input.buffer(), input.index()),
        input.index() <= r.1.index() <= input.buffer().len(),
        match r.0 {
            Some(v) => v == grammar::base36_value(input.buffer(), input.index(), r.1.index()),
            None => grammar::base36_value(input.buffer(), input.index(), r.1.index()) > usize::MAX,
        },
{
    let ghost buf = input.buffer();
    let ghost start = input.index();
    let mut cur = input;
    let mut value: Option<usize> = Some(0);
    let mut next = cur.peek();
    while next.is_some() && (is_digit(next.unwrap()) || is_upper(next.unwrap()))
        invariant
            cur.buffer() == buf,
            0 <= start <= cur.index() <= buf.len(),
            next == peek_at(buf, cur.index()),
            grammar::seq_id_end(buf, start) == grammar::seq_id_end(buf, cur.index()),
            match value {
                Some(v) => v == grammar::base36_value(buf, start, cur.index()),
                None => grammar::base36_value(buf, start, cur.index()) > usize::MAX,
            },
        decreases buf.len() - cur.index(),
    {
        let b = next.unwrap();
        let d: usize = if is_digit(b) {
            (b - ('0' as u8)) as usize
        } else {
            (b - ('A' as u8)) as usize + 10
        };
        value =
        match value {
            Some(v) => match v.checked_mul(36) {
                Some(w) => w.checked_add(d),
                None => None,
            },
            None => None,
        };
        cur = cur.bump();
        next = cur.peek();
    }
    (value, cur)
}

/// The cursor behind the suffix bytes at the cursor.
pub fn skip_suffix<'a>(input: IndexStr<'a>) -> (rest: IndexStr<'a>)
    ensures
        rest.buffer() == input.buffer(),
        rest.index() == grammar::suffix_end(input.buffer(), input.index()),
        input.index() <= rest.index() <= input.buffer().len(),
{
    let ghost buf = input.buffer();
    let ghost start = input.index();
    let mut cur = input;
    let mut next = cur.peek();
    while next.is_some() && is_suffix_byte(next.unwrap())
        invariant
            cur.buffer() == buf,
            0 <= start <= cur.index() <= buf.len(),
            next == peek_at(buf, cur.index()),
            grammar::suffix_end(buf, start) == grammar::suffix_end(buf, cur.index()),
        decreases buf.len() - cur.index(),
    {
        cur = cur.bump();
        next = cur.peek();
    }
    cur
}

pub fn is_suffix_byte(b: u8) -> (r: bool)
    ensures
        r == grammar::is_suffix_byte(b),
{
    is_digit(b) || is_lower(b) || is_upper(b) || b == '_' as u8 || b == '.' as u8 || b == '$' as u8
}

/// `<number> ::= [n] <decimal digits>`
pub fn parse_number<'a>(input: IndexStr<'a>) -> (r: Result<(Number, IndexStr<'a>), Error>)
    ensures
        read_as(r, input, grammar::parse_number(input.buffer(), input.index())),
{
    proof {
        reveal(grammar::parse_number);
    }
    match input.peek() {
        None => Err(Error::UnexpectedEnd),
        Some(b) => {
            let negative = b == ('n' as u8);
            let start = if negative {
                input.bump()
            } else {
                input
            };
            match start.peek() {
                None => Err(Error::UnexpectedEnd),
                Some(d) => if is_digit(d) {
                    let (_, rest) = read_decimal(start);
                    Ok((Number { negative, digits: span_between(&start, &rest) }, rest))
                } else {
                    Err(Error::UnexpectedToken)
                },
            }
        },
    }
}

/// `<source-name> ::= <length> <identifier>`
pub fn parse_source_name<'a>(input: IndexStr<'a>) -> (r: Result<(SourceName, IndexStr<'a>), Error>)
    ensures
        read_as(r, input, grammar::parse_source_name(input.buffer(), input.index())),
{
    proof {
        reveal(grammar::parse_source_name);
    }
    match input.peek() {
        None => Err(Error::UnexpectedEnd),
        Some(b) => if !is_digit(b) || b == ('0' as u8) {
            Err(Error::UnexpectedToken)
        } else {
            let (length, start) = read_decimal(input);
            match length {
                None => Err(Error::UnexpectedEnd),
                Some(n) => match start.skip(n) {
                    Err(e) => Err(e),
                    Ok(rest) => Ok((SourceName(span_between(&start, &rest)), rest)),
                },
            }
        },
    }
}

/// `<CV-qualifiers> ::= [r] [V] [K]`
pub fn parse_cv_qualifiers<'a>(input: IndexStr<'a>) -> (r: (CvQualifiers, IndexStr<'a>))
    ensures
        r.1.buffer() == input.buffer(),
        (r.0, r.1.index()) == grammar::parse_cv_qualifiers(input.buffer(), input.index()),
        input.index() <= r.1.index() <= input.buffer().len(),
{
    let restrict = at_byte(&input, 'r' as u8);
    let p1 = if restrict {
        input.bump()
    } else {
        input
    };
    let volatile = at_byte(&p1, 'V' as u8);
    let p2 = if volatile {
        p1.bump()
    } else {
        p1
    };
    let const_ = at_byte(&p2, 'K' as u8);
    let p3 = if const_ {
        p2.bump()
    } else {
        p2
    };
    (CvQualifiers { restrict, volatile, const_ }, p3)
}

/// `<ref-qualifier> ::= R | O`, where one stands at the cursor.
pub fn parse_ref_qualifier<'a>(input: IndexStr<'a>) -> (r: (Option<RefQualifier>, IndexStr<'a>))
    ensures
        r.1.buffer() == input.buffer(),
        (r.0, r.1.index()) == grammar::parse_ref_qualifier(input.buffer(), input.index()),
        input.index() <= r.1.index() <= input.buffer().len(),
{
    if at_byte(&input, 'R' as u8) {
        (Some(RefQualifier::LValueRef), input.bump())
    } else if at_byte(&input, 'O' as u8) {
        (Some(RefQualifier::RValueRef), input.bump())
    } else {
        (None, input)
    }
}

/// `<substitution>`, against a table of `count` entries.
pub fn parse_substitution<'a>(input: IndexStr<'a>, count: usize) -> (r: Result<
    (Substitution, IndexStr<'a>),
    Error,
>)
    ensures
        read_as(r, input, grammar::parse_substitution(input.buffer(), input.index(), count as nat)),
{
    proof {
        reveal(grammar::parse_substitution);
    }
    match input.peek() {
        None => Err(Error::UnexpectedEnd),
        Some(s) => if s != ('S' as u8) {
            Err(Error::UnexpectedToken)
        } else {
            match input.peek_second() {
                None => Err(Error::UnexpectedEnd),
                Some(c) => if is_well_known_code(c) {
                    Ok((Substitution::WellKnown(WellKnownComponent(c)), input.bump2()))
                } else if c == ('_' as u8) {
                    if 0 < count {
                        Ok((Substitution::BackReference(0), input.bump2()))
                    } else {
                        Err(Error::InvalidBackReference)
                    }
                } else if is_digit(c) || is_upper(c) {
                    let (value, end) = read_base36(input.bump());
                    match end.peek() {
                        None => Err(Error::UnexpectedEnd),
                        Some(u) => if u != ('_' as u8) {
                            Err(Error::UnexpectedToken)
                        } else {
                            match value {
                                None => Err(Error::InvalidBackReference),
                                Some(v) => if count > 0 && v < count - 1 {
                                    Ok((Substitution::BackReference(v + 1), end.bump()))
                                } else {
                                    Err(Error::InvalidBackReference)
                                },
                            }
                        },
                    }
                } else {
                    Err(Error::UnexpectedToken)
                },
            }
        },
    }
}

/// `<template-param> ::= T_ | T <number> _`
pub fn parse_template_param<'a>(input: IndexStr<'a>) -> (r: Result<
    (TemplateParam, IndexStr<'a>),
    Error,
>)
    ensures
        read_as(r, input, grammar::parse_template_param(input.buffer(), input.index())),
{
    proof {
        reveal(grammar::parse_template_param);
    }
    match input.peek() {
        None => Err(Error::UnexpectedEnd),
        Some(t) => if t != ('T' as u8) {
            Err(Error::UnexpectedToken)
        } else {
            match input.peek_second() {
                None => Err(Error::UnexpectedEnd),
                Some(c) => if c == ('_' as u8) {
                    Ok((TemplateParam(0), input.bump2()))
                } else if is_digit(c) {
                    let (value, end) = read_decimal(input.bump());
                    match end.peek() {
                        None => Err(Error::UnexpectedEnd),
                        Some(u) => if u != ('_' as u8) {
                            Err(Error::UnexpectedToken)
                        } else {
                            match value {
                                None => Err(Error::UnexpectedToken),
                                Some(v) => if v < usize::MAX {
                                    Ok((TemplateParam(v + 1), end.bump()))
                                } else {
                                    Err(Error::UnexpectedToken)
                                },
                            }
                        },
                    }
                } else {
                    Err(Error::UnexpectedToken)
                },
            }
        },
    }
}

/// `<discriminator>`, where one stands at the cursor.
pub fn parse_discriminator<'a>(input: IndexStr<'a>) -> (r: Result<
    (Option<usize>, IndexStr<'a>),
    Error,
>)
    ensures
        match grammar::parse_discriminator(input.buffer(), input.index()) {
            Ok((d, end)) => r matches Ok((n, rest)) && n == d && rest.buffer() == input.buffer()
                && rest.index() == end && input.index() <= end <= input.buffer().len(),
            Err(e) => r matches Err(x) && x == e,
        },
{
    proof {
        reveal(grammar::parse_discriminator);
    }
    if !at_byte(&input, '_' as u8) {
        Ok((None, input))
    } else {
        match input.peek_second() {
            None => Err(Error::UnexpectedEnd),
            Some(c) => if is_digit(c) {
                Ok((Some((c - ('0' as u8)) as usize), input.bump2()))
            } else if c == ('_' as u8) {
                match input.peek_third() {
                    None => Err(Error::UnexpectedEnd),
                    Some(d) => if !is_digit(d) {
                        Err(Error::UnexpectedToken)
                    } else {
                        let (value, end) = read_decimal(input.bump2());
                        match end.peek() {
                            None => Err(Error::UnexpectedEnd),
                            Some(u) => if u != ('_' as u8) {
                                Err(Error::UnexpectedToken)
                            } else {
                                match value {
                                    None => Err(Error::UnexpectedToken),
                                    Some(v) => Ok((Some(v), end.bump())),
                                }
                            },
                        }
                    },
                }
            } else {
                Err(Error::UnexpectedToken)
            },
        }
    }
}

/// `[<number>] _`
pub fn parse_unnamed_index<'a>(input: IndexStr<'a>) -> (r: Result<
    (Option<usize>, IndexStr<'a>),
    Error,
>)
    ensures
        read_as(r, input, grammar::parse_unnamed_index(input.buffer(), input.index())),
{
    proof {
        reveal(grammar::parse_unnamed_index);
    }
    match input.peek() {
        None => Err(Error::UnexpectedEnd),
        Some(c) => if c == ('_' as u8) {
            Ok((None, input.bump()))
        } else if is_digit(c) {
            let (value, end) = read_decimal(input);
            match end.peek() {
                None => Err(Error::UnexpectedEnd),
                Some(u) => if u != ('_' as u8) {
                    Err(Error::UnexpectedToken)
                } else {
                    match value {
                        None => Err(Error::UnexpectedToken),
                        Some(v) => Ok((Some(v), end.bump())),
                    }
                },
            }
        } else {
            Err(Error::UnexpectedToken)
        },
    }
}

/// `<ctor-dtor-name> ::= C1 | C2 | C3 | D0 | D1 | D2`
pub fn parse_ctor_dtor_name<'a>(input: IndexStr<'a>) -> (r: Result<
    (CtorDtorName, IndexStr<'a>),
    Error,
>)
    ensures
        read_as(r, input, grammar::parse_ctor_dtor_name(input.buffer(), input.index())),
{
    proof {
        reveal(grammar::parse_ctor_dtor_name);
    }
    match input.peek() {
        None => Err(Error::UnexpectedEnd),
        Some(a) => match input.peek_second() {
            None => Err(Error::UnexpectedEnd),
            Some(b) => if a == ('C' as u8) && b == ('1' as u8) {
                Ok((CtorDtorName::CompleteConstructor, input.bump2()))
            } else if a == ('C' as u8) && b == ('2' as u8) {
                Ok((CtorDtorName::BaseConstructor, input.bump2()))
            } else if a == ('C' as u8) && b == ('3' as u8) {
                Ok((CtorDtorName::CompleteAllocatingConstructor, input.bump2()))
            } else if a == ('D' as u8) && b == ('0' as u8) {
                Ok((CtorDtorName::DeletingDestructor, input.bump2()))
            } else if a == ('D' as u8) && b == ('1' as u8) {
                Ok((CtorDtorName::CompleteDestructor, input.bump2()))
            } else if a == ('D' as u8) && b == ('2' as u8) {
                Ok((CtorDtorName::BaseDestructor, input.bump2()))
            } else {
                Err(Error::UnexpectedToken)
            },
        },
    }
}

/// The dimension of an array and the `_` behind it: `[<number>] _`.
pub fn parse_array_dimension<'a>(input: IndexStr<'a>) -> (r: Result<
    (Option<Number>, IndexStr<'a>),
    Error,
>)
    ensures
        read_as(r, input, grammar::parse_array_dimension(input.buffer(), input.index())),
{
    proof {
        reveal(grammar::parse_array_dimension);
    }
    match input.peek() {
        None => Err(Error::UnexpectedEnd),
        Some(c) => if c == ('_' as u8) {
            Ok((None, input.bump()))
        } else if is_digit(c) {
            let (_, end) = read_decimal(input);
            match end.peek() {
                None => Err(Error::UnexpectedEnd),
                Some(u) => if u != ('_' as u8) {
                    Err(Error::UnexpectedToken)
                } else {
                    Ok(
                        (
                            Some(Number { negative: false, digits: span_between(&input, &end) }),
                            end.bump(),
                        ),
                    )
                },
            }
        } else {
            Err(Error::UnexpectedToken)
        },
    }
}

/// A number and the `_` behind it.
fn parse_offset_number<'a>(input: IndexStr<'a>) -> (r: Result<(Number, IndexStr<'a>), Error>)
    ensures
        match grammar::parse_number(input.buffer(), input.index()) {
            Err(e) => r matches Err(x) && x == e,
            Ok((n, p1)) => match peek_at(input.buffer(), p1) {
                None => r matches Err(x) && x == Error::UnexpectedEnd,
                Some(u) => if u != ('_' as u8) {
                    r matches Err(x) && x == Error::UnexpectedToken
                } else {
                    r matches Ok((m, rest)) && m == n && rest.buffer() == input.buffer()
                        && rest.index() == p1 + 1 && input.index() < p1 < input.buffer().len()
                },
            },
        },
{
    proof {
        reveal(grammar::parse_number);
    }
    match parse_number(input) {
        Err(e) => Err(e),
        Ok((n, rest)) => match rest.peek() {
            None => Err(Error::UnexpectedEnd),
            Some(u) => if u != ('_' as u8) {
                Err(Error::UnexpectedToken)
            } else {
                Ok((n, rest.bump()))
            },
        },
    }
}

/// `<call-offset> ::= h <number> _ | v <number> _ <number> _`
pub fn parse_call_offset<'a>(input: IndexStr<'a>) -> (r: Result<(CallOffset, IndexStr<'a>), Error>)
    ensures
        read_as(r, input, grammar::parse_call_offset(input.buffer(), input.index())),
{
    proof {
        reveal(grammar::parse_call_offset);
    }
    match input.peek() {
        None => Err(Error::UnexpectedEnd),
        Some(b) => if b == ('h' as u8) {
            match parse_offset_number(input.bump()) {
                Err(e) => Err(e),
                Ok((n, rest)) => Ok((CallOffset::NonVirtual(n), rest)),
            }
        } else if b == ('v' as u8) {
            match parse_offset_number(input.bump()) {
                Err(e) => Err(e),
                Ok((n, rest)) => match parse_offset_number(rest) {
                    Err(e) => Err(e),
                    Ok((m, rest2)) => Ok((CallOffset::Virtual(n, m), rest2)),
                },
            }
        } else {
            Err(Error::UnexpectedToken)
        },
    }
}

} // verus!
