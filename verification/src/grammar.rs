//! The grammar of mangled names, as functions on sequences of bytes.
//!
//! Each production is a function from the input, a position in it and the
//! substitutions made so far to the node that it matches, the position
//! behind the match and the substitutions made by then, or to an error.
//! Alternatives are told apart by the bytes at the position, in a fixed
//! order, so that an alternative that is not taken leaves no substitution
//! behind. The parser of [`crate::parse`] computes these functions.

use vstd::prelude::*;
use crate::ast::{
    BuiltinType, CallOffset, CtorDtorName, CvQualifiers, Expression, Number, OperatorName,
    PrefixHandle, RefQualifier, SourceName, Span, Substitution, TemplateArg, TemplateParam,
    TypeHandle, UnqualifiedName, UnscopedName, WellKnownComponent,
};
use crate::error::Error;
use crate::index_str::peek_at;
use crate::model;

verus! {

/// What a caller can choose about parsing.
#[derive(Clone, Copy, Debug, PartialEq, Eq, Structural)]
pub struct ParseOptions {
    /// How deeply types, template argument lists and conversion operators
    /// may be nested in one another.
    pub max_depth: usize,
    /// Whether one more `_` may stand before the `_Z`, as some platforms
    /// write it.
    pub leading_underscore: bool,
    /// Whether a type that a vendor added to the grammar is kept, to be
    /// rendered as its name, or fails the parse.
    pub vendor_extensions: bool,
}

/// The nesting that [`ParseOptions::default`] allows.
pub const DEFAULT_MAX_DEPTH: usize = 128;

impl Default for ParseOptions {
    fn default() -> (options: ParseOptions)
        ensures
            options == default_options(),
    {
        ParseOptions { max_depth: DEFAULT_MAX_DEPTH, leading_underscore: true, vendor_extensions: true }
    }
}

/// The options that suit names as compilers write them.
pub open spec fn default_options() -> ParseOptions {
    ParseOptions { max_depth: DEFAULT_MAX_DEPTH, leading_underscore: true, vendor_extensions: true }
}

/// Where a parse stands: its position in the input, and the substitution
/// table so far.
pub struct ParseState {
    pub pos: int,
    pub subs: Seq<model::Substitutable>,
}

impl ParseState {
    /// The same table, at another position.
    pub open spec fn at(self, pos: int) -> ParseState {
        ParseState { pos, subs: self.subs }
    }

    /// The same position, with one more entry in the table.
    pub open spec fn insert(self, node: model::Substitutable) -> ParseState {
        ParseState { pos: self.pos, subs: self.subs.push(node) }
    }

    /// The index that the next entry of the table will have.
    pub open spec fn next_index(self) -> usize {
        self.subs.len() as usize
    }

    /// The state after `ty` has been entered, with the handle to it.
    pub open spec fn insert_type(self, ty: model::Type) -> (TypeHandle, ParseState) {
        (TypeHandle::BackReference(self.next_index()), self.insert(model::Substitutable::Type(ty)))
    }
}

/// What a production yields: a node and the state behind it, or an error.
pub type Parsed<T> = Result<(T, ParseState), Error>;

pub open spec fn is_digit(b: u8) -> bool {
    ('0' as u8) <= b <= ('9' as u8)
}

pub open spec fn is_lower(b: u8) -> bool {
    ('a' as u8) <= b <= ('z' as u8)
}

pub open spec fn is_upper(b: u8) -> bool {
    ('A' as u8) <= b <= ('Z' as u8)
}

/// Whether a decimal digit stands at `pos`.
pub open spec fn starts_digit(input: Seq<u8>, pos: int) -> bool {
    peek_at(input, pos) matches Some(b) && is_digit(b)
}

/// The end of the run of decimal digits that starts at `pos`.
pub open spec fn digits_end(input: Seq<u8>, pos: int) -> int
    decreases input.len() - pos,
{
    if 0 <= pos < input.len() && is_digit(input[pos]) {
        digits_end(input, pos + 1)
    } else {
        pos
    }
}

/// The number that the decimal digits at `start..end` write.
pub open spec fn decimal_value(input: Seq<u8>, start: int, end: int) -> nat
    decreases end - start,
{
    if start >= end {
        0
    } else {
        decimal_value(input, start, end - 1) * 10 + (input[end - 1] - ('0' as u8)) as nat
    }
}

/// The end of the run of digits and capital letters that starts at `pos`.
pub open spec fn seq_id_end(input: Seq<u8>, pos: int) -> int
    decreases input.len() - pos,
{
    if 0 <= pos < input.len() && (is_digit(input[pos]) || is_upper(input[pos])) {
        seq_id_end(input, pos + 1)
    } else {
        pos
    }
}

/// What a digit or capital letter counts in base 36.
pub open spec fn base36_digit(b: u8) -> nat {
    if is_digit(b) {
        (b - ('0' as u8)) as nat
    } else {
        (b - ('A' as u8) + 10) as nat
    }
}

/// The number that the base-36 digits at `start..end` write.
pub open spec fn base36_value(input: Seq<u8>, start: int, end: int) -> nat
    decreases end - start,
{
    if start >= end {
        0
    } else {
        base36_value(input, start, end - 1) * 36 + base36_digit(input[end - 1])
    }
}

pub open spec fn span(start: int, end: int) -> Span {
    Span { start: start as usize, end: end as usize }
}

/// `<number> ::= [n] <decimal digits>`
#[verifier::opaque]
pub open spec fn parse_number(input: Seq<u8>, pos: int) -> Result<(Number, int), Error> {
    match peek_at(input, pos) {
        None => Err(Error::UnexpectedEnd),
        Some(b) => {
            let negative = b == ('n' as u8);
            let start = if negative {
                pos + 1
            } else {
                pos
            };
            match peek_at(input, start) {
                None => Err(Error::UnexpectedEnd),
                Some(d) => if is_digit(d) {
                    let end = digits_end(input, start);
                    Ok((Number { negative, digits: span(start, end) }, end))
                } else {
                    Err(Error::UnexpectedToken)
                },
            }
        },
    }
}

/// `<source-name> ::= <length> <identifier>`, the length a decimal number
/// without a leading zero, the identifier that many bytes.
#[verifier::opaque]
pub open spec fn parse_source_name(input: Seq<u8>, pos: int) -> Result<(SourceName, int), Error> {
    match peek_at(input, pos) {
        None => Err(Error::UnexpectedEnd),
        Some(b) => if !is_digit(b) || b == ('0' as u8) {
            Err(Error::UnexpectedToken)
        } else {
            let start = digits_end(input, pos);
            let end = start + decimal_value(input, pos, start);
            if end > input.len() {
                Err(Error::UnexpectedEnd)
            } else {
                Ok((SourceName(span(start, end)), end))
            }
        },
    }
}

/// `<CV-qualifiers> ::= [r] [V] [K]`
pub open spec fn parse_cv_qualifiers(input: Seq<u8>, pos: int) -> (CvQualifiers, int) {
    let restrict = peek_at(input, pos) == Some(('r' as u8));
    let p1 = if restrict {
        pos + 1
    } else {
        pos
    };
    let volatile = peek_at(input, p1) == Some(('V' as u8));
    let p2 = if volatile {
        p1 + 1
    } else {
        p1
    };
    let const_ = peek_at(input, p2) == Some(('K' as u8));
    let p3 = if const_ {
        p2 + 1
    } else {
        p2
    };
    (CvQualifiers { restrict, volatile, const_ }, p3)
}

/// `<ref-qualifier> ::= R | O`, where one stands at `pos`.
pub open spec fn parse_ref_qualifier(input: Seq<u8>, pos: int) -> (Option<RefQualifier>, int) {
    if peek_at(input, pos) == Some(('R' as u8)) {
        (Some(RefQualifier::LValueRef), pos + 1)
    } else if peek_at(input, pos) == Some(('O' as u8)) {
        (Some(RefQualifier::RValueRef), pos + 1)
    } else {
        (None, pos)
    }
}

/// The codes of the types of the language.
pub open spec fn is_builtin_code(b: u8) -> bool {
    b == 'v' as u8 || b == 'w' as u8 || b == 'b' as u8 || b == 'c' as u8 || b == 'a' as u8
        || b == 'h' as u8 || b == 's' as u8 || b == 't' as u8 || b == 'i' as u8
        || b == 'j' as u8 || b == 'l' as u8 || b == 'm' as u8 || b == 'x' as u8
        || b == 'y' as u8 || b == 'n' as u8 || b == 'o' as u8 || b == 'f' as u8
        || b == 'd' as u8 || b == 'e' as u8 || b == 'g' as u8 || b == 'z' as u8
}

/// The codes of the types of the language that follow a `D`.
pub open spec fn is_extended_builtin_code(b: u8) -> bool {
    b == 'd' as u8 || b == 'e' as u8 || b == 'f' as u8 || b == 'h' as u8 || b == 'i' as u8
        || b == 's' as u8 || b == 'a' as u8 || b == 'c' as u8 || b == 'n' as u8
}

/// The letters that follow an `S` in an abbreviation.
pub open spec fn is_well_known_code(b: u8) -> bool {
    b == 't' as u8 || b == 'a' as u8 || b == 'b' as u8 || b == 's' as u8 || b == 'i' as u8
        || b == 'o' as u8 || b == 'd' as u8
}

/// The two-letter codes of the operators of the language.
pub open spec fn is_simple_operator(a: u8, b: u8) -> bool {
    if a == ('n' as u8) {
        b == ('w' as u8) || b == ('a' as u8) || b == ('g' as u8) || b == ('e' as u8)
            || b == ('t' as u8)
    } else if a == ('d' as u8) {
        b == ('l' as u8) || b == ('a' as u8) || b == ('e' as u8) || b == ('v' as u8)
            || b == ('V' as u8)
    } else if a == ('p' as u8) {
        b == ('s' as u8) || b == ('l' as u8) || b == ('L' as u8) || b == ('p' as u8)
            || b == ('m' as u8) || b == ('t' as u8)
    } else if a == ('a' as u8) {
        b == ('d' as u8) || b == ('n' as u8) || b == ('S' as u8) || b == ('N' as u8)
            || b == ('a' as u8)
    } else if a == ('c' as u8) {
        b == ('o' as u8) || b == ('m' as u8) || b == ('l' as u8)
    } else if a == ('m' as u8) {
        b == ('i' as u8) || b == ('l' as u8) || b == ('I' as u8) || b == ('L' as u8)
            || b == ('m' as u8)
    } else if a == ('r' as u8) {
        b == ('m' as u8) || b == ('M' as u8) || b == ('s' as u8) || b == ('S' as u8)
    } else if a == ('o' as u8) {
        b == ('r' as u8) || b == ('R' as u8) || b == ('o' as u8)
    } else if a == ('e' as u8) {
        b == ('o' as u8) || b == ('O' as u8) || b == ('q' as u8)
    } else if a == ('l' as u8) {
        b == ('s' as u8) || b == ('S' as u8) || b == ('t' as u8) || b == ('e' as u8)
    } else if a == ('g' as u8) {
        b == ('t' as u8) || b == ('e' as u8)
    } else if a == ('i' as u8) {
        b == ('x' as u8)
    } else if a == ('q' as u8) {
        b == ('u' as u8)
    } else {
        false
    }
}

/// The codes of the operators that take one operand in an expression.
pub open spec fn is_unary_operator(a: u8, b: u8) -> bool {
    (a == 'p' as u8 && (b == 's' as u8 || b == 'p' as u8)) || (a == 'n' as u8 && (b == 'g' as u8
        || b == 't' as u8)) || (a == 'a' as u8 && b == 'd' as u8) || (a == 'd' as u8 && b
        == 'e' as u8) || (a == 'c' as u8 && b == 'o' as u8) || (a == 'm' as u8 && b == 'm' as u8)
}

/// The codes of the operators that take two operands in an expression.
pub open spec fn is_binary_operator(a: u8, b: u8) -> bool {
    is_simple_operator(a, b) && !is_unary_operator(a, b) && !(a == 'n' as u8 && (b == 'w' as u8
        || b == 'a' as u8)) && !(a == 'd' as u8 && (b == 'l' as u8 || b == 'a' as u8)) && !(a
        == 'c' as u8 && b == 'l' as u8) && !(a == 'q' as u8 && b == 'u' as u8) && !(a == 'p' as u8
        && b == 't' as u8)
}

/// Whether the byte can begin an unqualified name.
pub open spec fn is_unqualified_name_start(b: u8) -> bool {
    is_digit(b) || is_lower(b) || b == ('C' as u8) || b == ('D' as u8) || b == ('U' as u8)
}

/// Whether an unqualified name can begin at `pos`.
pub open spec fn starts_unqualified_name(input: Seq<u8>, pos: int) -> bool {
    peek_at(input, pos) matches Some(b) && is_unqualified_name_start(b)
}

/// Whether the byte can begin a type.
pub open spec fn is_type_start(b: u8) -> bool {
    is_builtin_code(b) || is_digit(b) || b == 'D' as u8 || b == 'r' as u8 || b == 'V' as u8 || b
        == 'K' as u8 || b == 'P' as u8 || b == 'R' as u8 || b == 'O' as u8 || b == 'A' as u8 || b
        == 'F' as u8 || b == 'M' as u8 || b == 'T' as u8 || b == 'S' as u8 || b == 'N' as u8 || b
        == 'u' as u8 || b == 'C' as u8 || b == 'G' as u8 || b == 'U' as u8 || b == 'Z' as u8
}

/// Whether a type can begin at `pos`.
pub open spec fn starts_type(input: Seq<u8>, pos: int) -> bool {
    peek_at(input, pos) matches Some(b) && is_type_start(b)
}

/// Whether `St` and the beginning of a name stand at `pos`: a name
/// directly in `std`, not the abbreviation for `std` itself.
pub open spec fn starts_std_name(input: Seq<u8>, pos: int) -> bool {
    peek_at(input, pos) == Some(('S' as u8)) && peek_at(input, pos + 1) == Some(('t' as u8))
        && starts_unqualified_name(input, pos + 2)
}

/// ```text
/// <substitution> ::= S_ | S <seq-id> _ | St | Sa | Sb | Ss | Si | So | Sd
/// ```
/// `S_` is entry 0 of the table and `S <seq-id> _` the entry one behind
/// the number that the seq-id writes in base 36. A code for an entry that
/// the table, of `count` entries, does not hold yet is an
/// `InvalidBackReference`.
#[verifier::opaque]
pub open spec fn parse_substitution(input: Seq<u8>, pos: int, count: nat) -> Result<
    (Substitution, int),
    Error,
> {
    match peek_at(input, pos) {
        None => Err(Error::UnexpectedEnd),
        Some(s) => if s != ('S' as u8) {
            Err(Error::UnexpectedToken)
        } else {
            match peek_at(input, pos + 1) {
                None => Err(Error::UnexpectedEnd),
                Some(c) => if is_well_known_code(c) {
                    Ok((Substitution::WellKnown(WellKnownComponent(c)), pos + 2))
                } else if c == ('_' as u8) {
                    if 0 < count {
                        Ok((Substitution::BackReference(0), pos + 2))
                    } else {
                        Err(Error::InvalidBackReference)
                    }
                } else if is_digit(c) || is_upper(c) {
                    let end = seq_id_end(input, pos + 1);
                    match peek_at(input, end) {
                        None => Err(Error::UnexpectedEnd),
                        Some(u) => if u != ('_' as u8) {
                            Err(Error::UnexpectedToken)
                        } else {
                            let idx = base36_value(input, pos + 1, end) + 1;
                            if idx < count {
                                Ok((Substitution::BackReference(idx as usize), end + 1))
                            } else {
                                Err(Error::InvalidBackReference)
                            }
                        },
                    }
                } else {
                    Err(Error::UnexpectedToken)
                },
            }
        },
    }
}

/// `<template-param> ::= T_ | T <number> _`: `T_` is parameter 0, and
/// `T <number> _` the one behind that number.
#[verifier::opaque]
pub open spec fn parse_template_param(input: Seq<u8>, pos: int) -> Result<
    (TemplateParam, int),
    Error,
> {
    match peek_at(input, pos) {
        None => Err(Error::UnexpectedEnd),
        Some(t) => if t != ('T' as u8) {
            Err(Error::UnexpectedToken)
        } else {
            match peek_at(input, pos + 1) {
                None => Err(Error::UnexpectedEnd),
                Some(c) => if c == ('_' as u8) {
                    Ok((TemplateParam(0), pos + 2))
                } else if is_digit(c) {
                    let end = digits_end(input, pos + 1);
                    match peek_at(input, end) {
                        None => Err(Error::UnexpectedEnd),
                        Some(u) => if u != ('_' as u8) {
                            Err(Error::UnexpectedToken)
                        } else {
                            let idx = decimal_value(input, pos + 1, end) + 1;
                            if idx <= usize::MAX {
                                Ok((TemplateParam(idx as usize), end + 1))
                            } else {
                                Err(Error::UnexpectedToken)
                            }
                        },
                    }
                } else {
                    Err(Error::UnexpectedToken)
                },
            }
        },
    }
}

/// `<discriminator> ::= _ <digit> | __ <number> _`, where one stands at
/// `pos`: the number that tells entities of one name in one function
/// apart.
#[verifier::opaque]
pub open spec fn parse_discriminator(input: Seq<u8>, pos: int) -> Result<
    (Option<usize>, int),
    Error,
> {
    if peek_at(input, pos) != Some('_' as u8) {
        Ok((None, pos))
    } else {
        match peek_at(input, pos + 1) {
            None => Err(Error::UnexpectedEnd),
            Some(c) => if is_digit(c) {
                Ok((Some((c - '0' as u8) as usize), pos + 2))
            } else if c == '_' as u8 {
                match peek_at(input, pos + 2) {
                    None => Err(Error::UnexpectedEnd),
                    Some(d) => if !is_digit(d) {
                        Err(Error::UnexpectedToken)
                    } else {
                        let end = digits_end(input, pos + 2);
                        match peek_at(input, end) {
                            None => Err(Error::UnexpectedEnd),
                            Some(u) => if u != '_' as u8 {
                                Err(Error::UnexpectedToken)
                            } else {
                                let n = decimal_value(input, pos + 2, end);
                                if n <= usize::MAX {
                                    Ok((Some(n as usize), end + 1))
                                } else {
                                    Err(Error::UnexpectedToken)
                                }
                            },
                        }
                    },
                }
            } else {
                Err(Error::UnexpectedToken)
            },
        }
    }
}

/// `[<number>] _`: the number that tells the unnamed types, or the
/// closures, of one scope apart.
#[verifier::opaque]
pub open spec fn parse_unnamed_index(input: Seq<u8>, pos: int) -> Result<
    (Option<usize>, int),
    Error,
> {
    match peek_at(input, pos) {
        None => Err(Error::UnexpectedEnd),
        Some(c) => if c == '_' as u8 {
            Ok((None, pos + 1))
        } else if is_digit(c) {
            let end = digits_end(input, pos);
            match peek_at(input, end) {
                None => Err(Error::UnexpectedEnd),
                Some(u) => if u != '_' as u8 {
                    Err(Error::UnexpectedToken)
                } else {
                    let n = decimal_value(input, pos, end);
                    if n <= usize::MAX {
                        Ok((Some(n as usize), end + 1))
                    } else {
                        Err(Error::UnexpectedToken)
                    }
                },
            }
        } else {
            Err(Error::UnexpectedToken)
        },
    }
}

/// `<ctor-dtor-name> ::= C1 | C2 | C3 | D0 | D1 | D2`
#[verifier::opaque]
pub open spec fn parse_ctor_dtor_name(input: Seq<u8>, pos: int) -> Result<
    (CtorDtorName, int),
    Error,
> {
    match peek_at(input, pos) {
        None => Err(Error::UnexpectedEnd),
        Some(a) => match peek_at(input, pos + 1) {
            None => Err(Error::UnexpectedEnd),
            Some(b) => if a == ('C' as u8) && b == ('1' as u8) {
                Ok((CtorDtorName::CompleteConstructor, pos + 2))
            } else if a == ('C' as u8) && b == ('2' as u8) {
                Ok((CtorDtorName::BaseConstructor, pos + 2))
            } else if a == ('C' as u8) && b == ('3' as u8) {
                Ok((CtorDtorName::CompleteAllocatingConstructor, pos + 2))
            } else if a == ('D' as u8) && b == ('0' as u8) {
                Ok((CtorDtorName::DeletingDestructor, pos + 2))
            } else if a == ('D' as u8) && b == ('1' as u8) {
                Ok((CtorDtorName::CompleteDestructor, pos + 2))
            } else if a == ('D' as u8) && b == ('2' as u8) {
                Ok((CtorDtorName::BaseDestructor, pos + 2))
            } else {
                Err(Error::UnexpectedToken)
            },
        },
    }
}

pub open spec fn type_handle(sub: Substitution) -> TypeHandle {
    match sub {
        Substitution::WellKnown(w) => TypeHandle::WellKnown(w),
        Substitution::BackReference(i) => TypeHandle::BackReference(i),
    }
}

pub open spec fn prefix_handle(sub: Substitution) -> PrefixHandle {
    match sub {
        Substitution::WellKnown(w) => PrefixHandle::WellKnown(w),
        Substitution::BackReference(i) => PrefixHandle::BackReference(i),
    }
}

/// The type that one of the markers `P`, `R`, `O`, `C` and `G` makes of
/// `inner`.
pub open spec fn wrap_type(marker: u8, inner: TypeHandle) -> model::Type {
    if marker == ('P' as u8) {
        model::Type::PointerTo(inner)
    } else if marker == ('R' as u8) {
        model::Type::LvalueRef(inner)
    } else if marker == ('O' as u8) {
        model::Type::RvalueRef(inner)
    } else if marker == ('C' as u8) {
        model::Type::Complex(inner)
    } else {
        model::Type::Imaginary(inner)
    }
}

/// Whether a sub-parse that began at `pos` ended further on, inside the
/// input. Every production does; the grammar asks where it repeats one, so
/// that the repetition is seen to end.
pub open spec fn moved_on(input: Seq<u8>, pos: int, st: ParseState) -> bool {
    pos < st.pos <= input.len()
}

/// ```text
/// <type> ::= <builtin-type>
///        ::= <CV-qualifiers> <type>
///        ::= P <type> | R <type> | O <type> | C <type> | G <type>
///        ::= A [<number>] _ <type>
///        ::= F [Y] <type>+ E
///        ::= M <type> <type>
///        ::= <name>
///        ::= <substitution> [<template-args>]
///        ::= <template-param> [<template-args>]
///        ::= Dp <type>
///        ::= Dt <expression> E | DT <expression> E
///        ::= u <source-name>
///        ::= U <source-name> <type>
/// ```
/// Every type but a builtin one or a bare substitution is entered in the
/// table. A type nested `max_depth` deep or deeper is a
/// `RecursionLimitExceeded`.
#[verifier::opaque]
pub open spec fn parse_type(input: Seq<u8>, st: ParseState, depth: nat, cfg: ParseOptions) -> Parsed<
    TypeHandle,
>
    decreases cfg.max_depth - depth, input.len() - st.pos, 20nat,
{
    let pos = st.pos;
    match peek_at(input, pos) {
        None => Err(Error::UnexpectedEnd),
        Some(b) => if depth >= cfg.max_depth {
            Err(Error::RecursionLimitExceeded)
        } else if is_builtin_code(b) {
            Ok((TypeHandle::Builtin(BuiltinType { extended: false, code: b }), st.at(pos + 1)))
        } else if b == ('D' as u8) {
            match peek_at(input, pos + 1) {
                None => Err(Error::UnexpectedEnd),
                Some(c) => if is_extended_builtin_code(c) {
                    Ok((TypeHandle::Builtin(BuiltinType { extended: true, code: c }), st.at(pos + 2)))
                } else if c == ('p' as u8) {
                    match parse_type(input, st.at(pos + 2), depth + 1, cfg) {
                        Err(e) => Err(e),
                        Ok((h, st1)) => Ok(st1.insert_type(model::Type::PackExpansion(h))),
                    }
                } else if c == ('t' as u8) || c == ('T' as u8) {
                    match parse_expression(input, st.at(pos + 2), depth + 1, cfg) {
                        Err(e) => Err(e),
                        Ok((value, st1)) => match peek_at(input, st1.pos) {
                            None => Err(Error::UnexpectedEnd),
                            Some(e) => if e != ('E' as u8) {
                                Err(Error::UnexpectedToken)
                            } else {
                                Ok(st1.at(st1.pos + 1).insert_type(model::Type::Decltype(value)))
                            },
                        },
                    }
                } else {
                    Err(Error::UnexpectedToken)
                },
            }
        } else if b == ('r' as u8) || b == ('V' as u8) || b == ('K' as u8) {
            let (cv, p1) = parse_cv_qualifiers(input, pos);
            match parse_type(input, st.at(p1), depth + 1, cfg) {
                Err(e) => Err(e),
                Ok((h, st1)) => Ok(st1.insert_type(model::Type::Qualified(cv, h))),
            }
        } else if b == ('P' as u8) || b == ('R' as u8) || b == ('O' as u8) || b == ('C' as u8) || b
            == ('G' as u8) {
            match parse_type(input, st.at(pos + 1), depth + 1, cfg) {
                Err(e) => Err(e),
                Ok((h, st1)) => Ok(st1.insert_type(wrap_type(b, h))),
            }
        } else if b == ('A' as u8) {
            match parse_array_dimension(input, pos + 1) {
                Err(e) => Err(e),
                Ok((dim, p1)) => match parse_type(input, st.at(p1), depth + 1, cfg) {
                    Err(e) => Err(e),
                    Ok((h, st1)) => Ok(st1.insert_type(model::Type::Array(dim, h))),
                },
            }
        } else if b == ('F' as u8) {
            let extern_c = peek_at(input, pos + 1) == Some(('Y' as u8));
            let p1 = if extern_c {
                pos + 2
            } else {
                pos + 1
            };
            match peek_at(input, p1) {
                None => Err(Error::UnexpectedEnd),
                Some(c) => if !is_type_start(c) {
                    Err(Error::UnexpectedToken)
                } else {
                    match parse_type_list(input, st.at(p1), depth + 1, cfg, Seq::empty()) {
                        Err(e) => Err(e),
                        Ok((types, st1)) => match peek_at(input, st1.pos) {
                            None => Err(Error::UnexpectedEnd),
                            Some(e) => if e != ('E' as u8) {
                                Err(Error::UnexpectedToken)
                            } else {
                                Ok(
                                    st1.at(st1.pos + 1).insert_type(
                                        model::Type::Function(
                                            model::FunctionType { extern_c, bare: types },
                                        ),
                                    ),
                                )
                            },
                        },
                    }
                },
            }
        } else if b == ('M' as u8) {
            match parse_type(input, st.at(pos + 1), depth + 1, cfg) {
                Err(e) => Err(e),
                Ok((class, st1)) => match parse_type(input, st1, depth + 1, cfg) {
                    Err(e) => Err(e),
                    Ok((member, st2)) => Ok(
                        st2.insert_type(model::Type::PointerToMember(class, member)),
                    ),
                },
            }
        } else if b == ('T' as u8) {
            match parse_template_param(input, pos) {
                Err(e) => Err(e),
                Ok((param, p1)) => {
                    let (h, st1) = st.at(p1).insert_type(model::Type::TemplateParam(param));
                    if peek_at(input, p1) == Some(('I' as u8)) {
                        match parse_template_args(input, st1, depth + 1, cfg) {
                            Err(e) => Err(e),
                            Ok((args, st2)) => Ok(
                                st2.insert_type(model::Type::TemplateTemplate(h, args)),
                            ),
                        }
                    } else {
                        Ok((h, st1))
                    }
                },
            }
        } else if b == ('S' as u8) && !starts_std_name(input, pos) {
            match parse_substitution(input, pos, st.subs.len()) {
                Err(e) => Err(e),
                Ok((sub, p1)) => if peek_at(input, p1) == Some(('I' as u8)) {
                    match parse_template_args(input, st.at(p1), depth + 1, cfg) {
                        Err(e) => Err(e),
                        Ok((args, st1)) => Ok(
                            st1.insert_type(model::Type::TemplateTemplate(type_handle(sub), args)),
                        ),
                    }
                } else {
                    Ok((type_handle(sub), st.at(p1)))
                },
            }
        } else if b == ('S' as u8) || b == ('N' as u8) || b == ('Z' as u8) || is_digit(b) {
            match parse_name(input, st, depth, cfg) {
                Err(e) => Err(e),
                Ok((name, st1)) => Ok(st1.insert_type(model::Type::ClassEnum(name))),
            }
        } else if b == ('u' as u8) && cfg.vendor_extensions {
            match parse_source_name(input, pos + 1) {
                Err(e) => Err(e),
                Ok((name, p1)) => Ok(st.at(p1).insert_type(model::Type::VendorExtension(name))),
            }
        } else if b == ('U' as u8) && cfg.vendor_extensions {
            match parse_source_name(input, pos + 1) {
                Err(e) => Err(e),
                Ok((name, p1)) => match parse_type(input, st.at(p1), depth + 1, cfg) {
                    Err(e) => Err(e),
                    Ok((h, st1)) => Ok(st1.insert_type(model::Type::VendorQualified(name, h))),
                },
            }
        } else {
            Err(Error::UnexpectedToken)
        },
    }
}

/// The dimension of an array and the `_` behind it: `[<number>] _`.
#[verifier::opaque]
pub open spec fn parse_array_dimension(input: Seq<u8>, pos: int) -> Result<
    (Option<Number>, int),
    Error,
> {
    match peek_at(input, pos) {
        None => Err(Error::UnexpectedEnd),
        Some(c) => if c == ('_' as u8) {
            Ok((None, pos + 1))
        } else if is_digit(c) {
            let end = digits_end(input, pos);
            match peek_at(input, end) {
                None => Err(Error::UnexpectedEnd),
                Some(u) => if u != ('_' as u8) {
                    Err(Error::UnexpectedToken)
                } else {
                    Ok((Some(Number { negative: false, digits: span(pos, end) }), end + 1))
                },
            }
        } else {
            Err(Error::UnexpectedToken)
        },
    }
}

/// `<type>*`: types, one behind the other, as long as one begins. `done`
/// holds those before `st`.
#[verifier::opaque]
pub open spec fn parse_type_list(
    input: Seq<u8>,
    st: ParseState,
    depth: nat,
    cfg: ParseOptions,
    done: Seq<TypeHandle>,
) -> Parsed<Seq<TypeHandle>>
    decreases cfg.max_depth - depth, input.len() - st.pos, 25nat,
{
    if !starts_type(input, st.pos) {
        Ok((done, st))
    } else {
        match parse_type(input, st, depth, cfg) {
            Err(e) => Err(e),
            Ok((h, st1)) => if moved_on(input, st.pos, st1) {
                parse_type_list(input, st1, depth, cfg, done.push(h))
            } else {
                Err(Error::UnexpectedToken)
            },
        }
    }
}

/// ```text
/// <name> ::= <nested-name>
///        ::= <unscoped-name> [<template-args>]
///        ::= <substitution> <template-args>
///        ::= <local-name>
/// ```
/// An unscoped name that template arguments follow is entered in the
/// table.
#[verifier::opaque]
pub open spec fn parse_name(input: Seq<u8>, st: ParseState, depth: nat, cfg: ParseOptions) -> Parsed<
    model::Name,
>
    decreases cfg.max_depth - depth, input.len() - st.pos, 15nat,
{
    let pos = st.pos;
    match peek_at(input, pos) {
        None => Err(Error::UnexpectedEnd),
        Some(b) => if b == ('N' as u8) {
            match parse_nested_name(input, st, depth, cfg) {
                Err(e) => Err(e),
                Ok((n, st1)) => Ok((model::Name::Nested(n), st1)),
            }
        } else if b == ('Z' as u8) {
            match parse_local_name(input, st, depth, cfg) {
                Err(e) => Err(e),
                Ok((l, st1)) => Ok((model::Name::Local(Box::new(l)), st1)),
            }
        } else if b == ('S' as u8) && !starts_std_name(input, pos) {
            match parse_substitution(input, pos, st.subs.len()) {
                Err(e) => Err(e),
                Ok((sub, p1)) => match peek_at(input, p1) {
                    None => Err(Error::UnexpectedEnd),
                    Some(c) => if c != ('I' as u8) {
                        Err(Error::UnexpectedToken)
                    } else if depth >= cfg.max_depth {
                        Err(Error::RecursionLimitExceeded)
                    } else {
                        match parse_template_args(input, st.at(p1), depth + 1, cfg) {
                            Err(e) => Err(e),
                            Ok((args, st1)) => Ok(
                                (model::Name::UnscopedTemplate(prefix_handle(sub), args), st1),
                            ),
                        }
                    },
                },
            }
        } else {
            match parse_unscoped_name(input, st, depth, cfg) {
                Err(e) => Err(e),
                Ok((name, st1)) => if peek_at(input, st1.pos) == Some(('I' as u8)) {
                    if depth >= cfg.max_depth {
                        Err(Error::RecursionLimitExceeded)
                    } else {
                        let st2 = st1.insert(model::Substitutable::UnscopedTemplateName(name));
                        match parse_template_args(input, st2, depth + 1, cfg) {
                            Err(e) => Err(e),
                            Ok((args, st3)) => Ok(
                                (
                                    model::Name::UnscopedTemplate(
                                        PrefixHandle::BackReference(st1.next_index()),
                                        args,
                                    ),
                                    st3,
                                ),
                            ),
                        }
                    }
                } else {
                    Ok((model::Name::Unscoped(name), st1))
                },
            }
        },
    }
}

/// `<closure-type-name> ::= Ul <type>+ E [<number>] _`: the types of the
/// parameters of a lambda expression, and its number.
#[verifier::opaque]
pub open spec fn parse_closure(input: Seq<u8>, st: ParseState, depth: nat, cfg: ParseOptions) -> Parsed<
    (Seq<TypeHandle>, Option<usize>),
>
    decreases cfg.max_depth - depth, input.len() - st.pos, 10nat,
{
    let pos = st.pos;
    match peek_at(input, pos) {
        None => Err(Error::UnexpectedEnd),
        Some(u) => if u != ('U' as u8) {
            Err(Error::UnexpectedToken)
        } else {
            match peek_at(input, pos + 1) {
                None => Err(Error::UnexpectedEnd),
                Some(l) => if l != ('l' as u8) {
                    Err(Error::UnexpectedToken)
                } else {
                    match peek_at(input, pos + 2) {
                        None => Err(Error::UnexpectedEnd),
                        Some(c) => if depth >= cfg.max_depth {
                            Err(Error::RecursionLimitExceeded)
                        } else if !is_type_start(c) {
                            Err(Error::UnexpectedToken)
                        } else {
                            match parse_type_list(
                                input,
                                st.at(pos + 2),
                                depth + 1,
                                cfg,
                                Seq::empty(),
                            ) {
                                Err(e) => Err(e),
                                Ok((types, st1)) => match peek_at(input, st1.pos) {
                                    None => Err(Error::UnexpectedEnd),
                                    Some(e) => if e != ('E' as u8) {
                                        Err(Error::UnexpectedToken)
                                    } else {
                                        match parse_unnamed_index(input, st1.pos + 1) {
                                            Err(e) => Err(e),
                                            Ok((index, p2)) => Ok(((types, index), st1.at(p2))),
                                        }
                                    },
                                },
                            }
                        },
                    }
                },
            }
        },
    }
}

/// `<local-name> ::= Z <name> [<type>+] E <entity> [<discriminator>]`: what
/// is declared inside the function that the name and the types encode.
#[verifier::opaque]
pub open spec fn parse_local_name(
    input: Seq<u8>,
    st: ParseState,
    depth: nat,
    cfg: ParseOptions,
) -> Parsed<model::LocalName>
    decreases cfg.max_depth - depth, input.len() - st.pos, 14nat,
{
    let pos = st.pos;
    match peek_at(input, pos) {
        None => Err(Error::UnexpectedEnd),
        Some(z) => if z != ('Z' as u8) {
            Err(Error::UnexpectedToken)
        } else {
            match peek_at(input, pos + 1) {
                None => Err(Error::UnexpectedEnd),
                Some(_c) => if depth >= cfg.max_depth {
                    Err(Error::RecursionLimitExceeded)
                } else {
                    match parse_local_scope(input, st.at(pos + 1), depth + 1, cfg) {
                        Err(e) => Err(e),
                        Ok(((scope_name, scope_types), st1)) => match peek_at(input, st1.pos) {
                            None => Err(Error::UnexpectedEnd),
                            Some(e) => if e != ('E' as u8) {
                                Err(Error::UnexpectedToken)
                            } else {
                                match parse_local_entity(
                                    input,
                                    st1.at(st1.pos + 1),
                                    depth + 1,
                                    cfg,
                                ) {
                                    Err(e) => Err(e),
                                    Ok((entity, st2)) => match parse_discriminator(input, st2.pos) {
                                        Err(e) => Err(e),
                                        Ok((discriminator, p3)) => Ok(
                                            (
                                                model::LocalName {
                                                    scope_name,
                                                    scope_types,
                                                    entity,
                                                    discriminator,
                                                },
                                                st2.at(p3),
                                            ),
                                        ),
                                    },
                                }
                            },
                        },
                    }
                },
            }
        },
    }
}

/// The function that a local name lies in: `<name> [<type>+]`, with the
/// types where one begins behind the name.
#[verifier::opaque]
pub open spec fn parse_local_scope(
    input: Seq<u8>,
    st: ParseState,
    depth: nat,
    cfg: ParseOptions,
) -> Parsed<(model::Name, Option<Seq<TypeHandle>>)>
    decreases cfg.max_depth - depth, input.len() - st.pos, 26nat,
{
    match parse_name(input, st, depth, cfg) {
        Err(e) => Err(e),
        Ok((name, st1)) => if !starts_type(input, st1.pos) {
            Ok(((name, None), st1))
        } else if moved_on(input, st.pos, st1) {
            match parse_type_list(input, st1, depth, cfg, Seq::empty()) {
                Err(e) => Err(e),
                Ok((types, st2)) => Ok(((name, Some(types)), st2)),
            }
        } else {
            Err(Error::UnexpectedToken)
        },
    }
}

/// `<entity> ::= <name> | s | <closure-type-name>`: what a local name
/// names, `s` being a string literal.
#[verifier::opaque]
pub open spec fn parse_local_entity(
    input: Seq<u8>,
    st: ParseState,
    depth: nat,
    cfg: ParseOptions,
) -> Parsed<model::LocalEntity>
    decreases cfg.max_depth - depth, input.len() - st.pos, 16nat,
{
    let pos = st.pos;
    match peek_at(input, pos) {
        None => Err(Error::UnexpectedEnd),
        Some(b) => if b == ('s' as u8) {
            Ok((model::LocalEntity::StringLiteral, st.at(pos + 1)))
        } else if b == ('U' as u8) {
            match peek_at(input, pos + 1) {
                None => Err(Error::UnexpectedEnd),
                Some(c) => if c == ('l' as u8) {
                    match parse_closure(input, st, depth, cfg) {
                        Err(e) => Err(e),
                        Ok(((types, index), st1)) => Ok(
                            (model::LocalEntity::Closure(types, index), st1),
                        ),
                    }
                } else {
                    match parse_name(input, st, depth, cfg) {
                        Err(e) => Err(e),
                        Ok((n, st1)) => Ok((model::LocalEntity::Name(n), st1)),
                    }
                },
            }
        } else {
            match parse_name(input, st, depth, cfg) {
                Err(e) => Err(e),
                Ok((n, st1)) => Ok((model::LocalEntity::Name(n), st1)),
            }
        },
    }
}

/// `<unscoped-name> ::= <unqualified-name> | St <unqualified-name>`
#[verifier::opaque]
pub open spec fn parse_unscoped_name(
    input: Seq<u8>,
    st: ParseState,
    depth: nat,
    cfg: ParseOptions,
) -> Parsed<UnscopedName>
    decreases cfg.max_depth - depth, input.len() - st.pos, 12nat,
{
    if starts_std_name(input, st.pos) {
        match parse_unqualified_name(input, st.at(st.pos + 2), depth, cfg) {
            Err(e) => Err(e),
            Ok((n, st1)) => Ok((UnscopedName::Std(n), st1)),
        }
    } else {
        match parse_unqualified_name(input, st, depth, cfg) {
            Err(e) => Err(e),
            Ok((n, st1)) => Ok((UnscopedName::Unqualified(n), st1)),
        }
    }
}

/// `<nested-name> ::= N [<CV-qualifiers>] [<ref-qualifier>] <prefix> E`
#[verifier::opaque]
pub open spec fn parse_nested_name(
    input: Seq<u8>,
    st: ParseState,
    depth: nat,
    cfg: ParseOptions,
) -> Parsed<model::NestedName>
    decreases cfg.max_depth - depth, input.len() - st.pos, 14nat,
{
    let pos = st.pos;
    match peek_at(input, pos) {
        None => Err(Error::UnexpectedEnd),
        Some(b) => if b != ('N' as u8) {
            Err(Error::UnexpectedToken)
        } else {
            let (cv_qualifiers, p1) = parse_cv_qualifiers(input, pos + 1);
            let (ref_qualifier, p2) = parse_ref_qualifier(input, p1);
            match parse_prefix(input, st.at(p2), depth, cfg, None) {
                Err(e) => Err(e),
                Ok((name, st1)) => Ok(
                    (
                        model::NestedName { cv_qualifiers, ref_qualifier, name },
                        st1.at(st1.pos + 1),
                    ),
                ),
            }
        },
    }
}

/// The one component of a prefix that begins at `st` and is no
/// substitution, joined to the scope before it.
#[verifier::opaque]
pub open spec fn parse_prefix_component(
    input: Seq<u8>,
    st: ParseState,
    depth: nat,
    cfg: ParseOptions,
    scope: Option<PrefixHandle>,
) -> Parsed<model::Prefix>
    decreases cfg.max_depth - depth, input.len() - st.pos, 11nat,
{
    let pos = st.pos;
    match peek_at(input, pos) {
        None => Err(Error::UnexpectedEnd),
        Some(b) => if b == ('U' as u8) && peek_at(input, pos + 1) == Some('l' as u8) {
            match parse_closure(input, st, depth, cfg) {
                Err(e) => Err(e),
                Ok(((types, index), st1)) => Ok((model::Prefix::Closure(scope, types, index), st1)),
            }
        } else if b == ('I' as u8) {
            match scope {
                None => Err(Error::UnexpectedToken),
                Some(h) => if depth >= cfg.max_depth {
                    Err(Error::RecursionLimitExceeded)
                } else {
                    match parse_template_args(input, st, depth + 1, cfg) {
                        Err(e) => Err(e),
                        Ok((args, st1)) => Ok((model::Prefix::Template(h, args), st1)),
                    }
                },
            }
        } else if b == ('T' as u8) && scope is None {
            match parse_template_param(input, pos) {
                Err(e) => Err(e),
                Ok((p, p1)) => Ok((model::Prefix::TemplateParam(p), st.at(p1))),
            }
        } else if is_unqualified_name_start(b) {
            match parse_unqualified_name(input, st, depth, cfg) {
                Err(e) => Err(e),
                Ok((n, st1)) => Ok(
                    (
                        match scope {
                            None => model::Prefix::Unqualified(n),
                            Some(h) => model::Prefix::Nested(h, n),
                        },
                        st1,
                    ),
                ),
            }
        } else {
            Err(Error::UnexpectedToken)
        },
    }
}

/// ```text
/// <prefix> ::= <unqualified-name>
///          ::= <prefix> <unqualified-name>
///          ::= <prefix> <template-args>
///          ::= <template-param>
///          ::= <substitution>
///          ::= [<prefix>] Ul <type>+ E [<number>] _
/// ```
/// up to the `E` that ends the nested name, which is left in place. `scope`
/// is the prefix before `st`. Each prefix but the whole one is entered in
/// the table.
#[verifier::opaque]
pub open spec fn parse_prefix(
    input: Seq<u8>,
    st: ParseState,
    depth: nat,
    cfg: ParseOptions,
    scope: Option<PrefixHandle>,
) -> Parsed<model::Prefix>
    decreases cfg.max_depth - depth, input.len() - st.pos, 13nat,
{
    let pos = st.pos;
    if peek_at(input, pos) == Some(('S' as u8)) && scope is None {
        match parse_substitution(input, pos, st.subs.len()) {
            Err(e) => Err(e),
            Ok((sub, p1)) => if moved_on(input, pos, st.at(p1)) {
                parse_prefix(input, st.at(p1), depth, cfg, Some(prefix_handle(sub)))
            } else {
                Err(Error::UnexpectedToken)
            },
        }
    } else {
        match parse_prefix_component(input, st, depth, cfg, scope) {
            Err(e) => Err(e),
            Ok((prefix, st1)) => match peek_at(input, st1.pos) {
                None => Err(Error::UnexpectedEnd),
                Some(c) => if c == ('E' as u8) {
                    Ok((prefix, st1))
                } else if moved_on(input, pos, st1) {
                    parse_prefix(
                        input,
                        st1.insert(model::Substitutable::Prefix(prefix)),
                        depth,
                        cfg,
                        Some(PrefixHandle::BackReference(st1.next_index())),
                    )
                } else {
                    Err(Error::UnexpectedToken)
                },
            },
        }
    }
}

/// ```text
/// <unqualified-name> ::= <operator-name> | <ctor-dtor-name> | <source-name>
///                    ::= Ut [<number>] _
/// ```
#[verifier::opaque]
pub open spec fn parse_unqualified_name(
    input: Seq<u8>,
    st: ParseState,
    depth: nat,
    cfg: ParseOptions,
) -> Parsed<UnqualifiedName>
    decreases cfg.max_depth - depth, input.len() - st.pos, 10nat,
{
    let pos = st.pos;
    match peek_at(input, pos) {
        None => Err(Error::UnexpectedEnd),
        Some(b) => if is_digit(b) {
            match parse_source_name(input, pos) {
                Err(e) => Err(e),
                Ok((n, p1)) => Ok((UnqualifiedName::Source(n), st.at(p1))),
            }
        } else if b == ('C' as u8) || b == ('D' as u8) {
            match parse_ctor_dtor_name(input, pos) {
                Err(e) => Err(e),
                Ok((n, p1)) => Ok((UnqualifiedName::CtorDtor(n), st.at(p1))),
            }
        } else if is_lower(b) {
            match parse_operator_name(input, st, depth, cfg) {
                Err(e) => Err(e),
                Ok((n, st1)) => Ok((UnqualifiedName::Operator(n), st1)),
            }
        } else if b == ('U' as u8) {
            match peek_at(input, pos + 1) {
                None => Err(Error::UnexpectedEnd),
                Some(c) => if c == ('t' as u8) {
                    match parse_unnamed_index(input, pos + 2) {
                        Err(e) => Err(e),
                        Ok((index, p1)) => Ok((UnqualifiedName::UnnamedType(index), st.at(p1))),
                    }
                } else {
                    Err(Error::UnexpectedToken)
                },
            }
        } else {
            Err(Error::UnexpectedToken)
        },
    }
}

/// ```text
/// <operator-name> ::= <two-letter code>
///                 ::= cv <type>
///                 ::= li <source-name>
/// ```
#[verifier::opaque]
pub open spec fn parse_operator_name(
    input: Seq<u8>,
    st: ParseState,
    depth: nat,
    cfg: ParseOptions,
) -> Parsed<OperatorName>
    decreases cfg.max_depth - depth, input.len() - st.pos, 9nat,
{
    let pos = st.pos;
    match peek_at(input, pos) {
        None => Err(Error::UnexpectedEnd),
        Some(a) => match peek_at(input, pos + 1) {
            None => Err(Error::UnexpectedEnd),
            Some(b) => if a == ('c' as u8) && b == ('v' as u8) {
                match peek_at(input, pos + 2) {
                    None => Err(Error::UnexpectedEnd),
                    Some(_c) => if depth >= cfg.max_depth {
                        Err(Error::RecursionLimitExceeded)
                    } else {
                        match parse_type(input, st.at(pos + 2), depth + 1, cfg) {
                            Err(e) => Err(e),
                            Ok((h, st1)) => Ok((OperatorName::Cast(h), st1)),
                        }
                    },
                }
            } else if a == ('l' as u8) && b == ('i' as u8) {
                match parse_source_name(input, pos + 2) {
                    Err(e) => Err(e),
                    Ok((n, p1)) => Ok((OperatorName::Literal(n), st.at(p1))),
                }
            } else if is_simple_operator(a, b) {
                Ok((OperatorName::Simple(a, b), st.at(pos + 2)))
            } else {
                Err(Error::UnexpectedToken)
            },
        },
    }
}

/// `<template-args> ::= I <template-arg>+ E`
#[verifier::opaque]
pub open spec fn parse_template_args(
    input: Seq<u8>,
    st: ParseState,
    depth: nat,
    cfg: ParseOptions,
) -> Parsed<Seq<TemplateArg>>
    decreases cfg.max_depth - depth, input.len() - st.pos, 32nat,
{
    let pos = st.pos;
    match peek_at(input, pos) {
        None => Err(Error::UnexpectedEnd),
        Some(b) => if b != ('I' as u8) {
            Err(Error::UnexpectedToken)
        } else {
            match parse_template_arg_list(input, st.at(pos + 1), depth, cfg, Seq::empty()) {
                Err(e) => Err(e),
                Ok((args, st1)) => Ok((args, st1.at(st1.pos + 1))),
            }
        },
    }
}

/// `<template-arg>+`, up to the `E` that ends the list, which is left in
/// place. `done` holds the arguments before `st`.
#[verifier::opaque]
pub open spec fn parse_template_arg_list(
    input: Seq<u8>,
    st: ParseState,
    depth: nat,
    cfg: ParseOptions,
    done: Seq<TemplateArg>,
) -> Parsed<Seq<TemplateArg>>
    decreases cfg.max_depth - depth, input.len() - st.pos, 31nat,
{
    match peek_at(input, st.pos) {
        None => Err(Error::UnexpectedEnd),
        Some(b) => if b == ('E' as u8) {
            if done.len() == 0 {
                Err(Error::UnexpectedToken)
            } else {
                Ok((done, st))
            }
        } else {
            match parse_template_arg(input, st, depth, cfg) {
                Err(e) => Err(e),
                Ok((arg, st1)) => if moved_on(input, st.pos, st1) {
                    parse_template_arg_list(input, st1, depth, cfg, done.push(arg))
                } else {
                    Err(Error::UnexpectedToken)
                },
            }
        },
    }
}

/// `<template-arg> ::= <type> | L <type> <number> E | X <expression> E`
#[verifier::opaque]
pub open spec fn parse_template_arg(
    input: Seq<u8>,
    st: ParseState,
    depth: nat,
    cfg: ParseOptions,
) -> Parsed<TemplateArg>
    decreases cfg.max_depth - depth, input.len() - st.pos, 30nat,
{
    let pos = st.pos;
    match peek_at(input, pos) {
        None => Err(Error::UnexpectedEnd),
        Some(b) => if b == ('L' as u8) {
            match parse_type(input, st.at(pos + 1), depth, cfg) {
                Err(e) => Err(e),
                Ok((ty, st1)) => match parse_number(input, st1.pos) {
                    Err(e) => Err(e),
                    Ok((value, p2)) => match peek_at(input, p2) {
                        None => Err(Error::UnexpectedEnd),
                        Some(e) => if e != ('E' as u8) {
                            Err(Error::UnexpectedToken)
                        } else {
                            Ok((TemplateArg::Literal(ty, value), st1.at(p2 + 1)))
                        },
                    },
                },
            }
        } else if b == ('X' as u8) {
            match parse_expression(input, st.at(pos + 1), depth, cfg) {
                Err(e) => Err(e),
                Ok((value, st1)) => match peek_at(input, st1.pos) {
                    None => Err(Error::UnexpectedEnd),
                    Some(e) => if e != ('E' as u8) {
                        Err(Error::UnexpectedToken)
                    } else {
                        Ok((TemplateArg::Expression(value), st1.at(st1.pos + 1)))
                    },
                },
            }
        } else {
            match parse_type(input, st, depth, cfg) {
                Err(e) => Err(e),
                Ok((ty, st1)) => Ok((TemplateArg::Type(ty), st1)),
            }
        },
    }
}

/// How many operands the operator with the given code takes in an
/// expression, `sz` and `qu` among them: none where it is no operator of
/// expressions.
pub open spec fn operand_count(a: u8, b: u8) -> nat {
    if (a == 's' as u8 && b == 'z' as u8) || is_unary_operator(a, b) {
        1
    } else if a == 'q' as u8 && b == 'u' as u8 {
        3
    } else if is_binary_operator(a, b) {
        2
    } else {
        0
    }
}

/// The expression that the operator with the given code makes of its
/// operands.
pub open spec fn operator_expression(a: u8, b: u8, operands: Seq<Expression>) -> Expression {
    if a == 's' as u8 && b == 'z' as u8 {
        Expression::SizeofExpr(Box::new(operands[0]))
    } else if a == 'q' as u8 && b == 'u' as u8 {
        Expression::Conditional(
            Box::new(operands[0]),
            Box::new(operands[1]),
            Box::new(operands[2]),
        )
    } else if is_unary_operator(a, b) {
        Expression::Unary(a, b, Box::new(operands[0]))
    } else {
        Expression::Binary(a, b, Box::new(operands[0]), Box::new(operands[1]))
    }
}

/// ```text
/// <expression> ::= <template-param>
///              ::= L <type> [<number>] E
///              ::= st <type>
///              ::= sz <expression>
///              ::= cv <type> <expression>
///              ::= qu <expression> <expression> <expression>
///              ::= <unary operator code> <expression>
///              ::= <binary operator code> <expression> <expression>
/// ```
/// An expression nested `max_depth` deep or deeper, in types or in other
/// expressions, is a `RecursionLimitExceeded`.
#[verifier::opaque]
pub open spec fn parse_expression(
    input: Seq<u8>,
    st: ParseState,
    depth: nat,
    cfg: ParseOptions,
) -> Parsed<Expression>
    decreases cfg.max_depth - depth, input.len() - st.pos, 40nat,
{
    let pos = st.pos;
    match peek_at(input, pos) {
        None => Err(Error::UnexpectedEnd),
        Some(a) => if depth >= cfg.max_depth {
            Err(Error::RecursionLimitExceeded)
        } else if a == ('T' as u8) {
            match parse_template_param(input, pos) {
                Err(e) => Err(e),
                Ok((p, p1)) => Ok((Expression::TemplateParam(p), st.at(p1))),
            }
        } else if a == ('L' as u8) {
            match parse_type(input, st.at(pos + 1), depth + 1, cfg) {
                Err(e) => Err(e),
                Ok((ty, st1)) => match peek_at(input, st1.pos) {
                    None => Err(Error::UnexpectedEnd),
                    Some(e) => if e == ('E' as u8) {
                        Ok((Expression::Literal(ty, None), st1.at(st1.pos + 1)))
                    } else {
                        match parse_number(input, st1.pos) {
                            Err(e) => Err(e),
                            Ok((value, p2)) => match peek_at(input, p2) {
                                None => Err(Error::UnexpectedEnd),
                                Some(e) => if e != ('E' as u8) {
                                    Err(Error::UnexpectedToken)
                                } else {
                                    Ok((Expression::Literal(ty, Some(value)), st1.at(p2 + 1)))
                                },
                            },
                        }
                    },
                },
            }
        } else {
            match peek_at(input, pos + 1) {
                None => Err(Error::UnexpectedEnd),
                Some(b) => if a == ('s' as u8) && b == ('t' as u8) {
                    match parse_type(input, st.at(pos + 2), depth + 1, cfg) {
                        Err(e) => Err(e),
                        Ok((ty, st1)) => Ok((Expression::SizeofType(ty), st1)),
                    }
                } else if a == ('c' as u8) && b == ('v' as u8) {
                    match parse_type(input, st.at(pos + 2), depth + 1, cfg) {
                        Err(e) => Err(e),
                        Ok((ty, st1)) => match parse_operands(
                            input,
                            st1,
                            depth + 1,
                            cfg,
                            1,
                            Seq::empty(),
                        ) {
                            Err(e) => Err(e),
                            Ok((xs, st2)) => Ok((Expression::Cast(ty, Box::new(xs[0])), st2)),
                        },
                    }
                } else if operand_count(a, b) > 0 {
                    match parse_operands(
                        input,
                        st.at(pos + 2),
                        depth + 1,
                        cfg,
                        operand_count(a, b),
                        Seq::empty(),
                    ) {
                        Err(e) => Err(e),
                        Ok((xs, st1)) => Ok((operator_expression(a, b, xs), st1)),
                    }
                } else {
                    Err(Error::UnexpectedToken)
                },
            }
        },
    }
}

/// `count` expressions, one behind the other. `done` holds those before
/// `st`.
#[verifier::opaque]
pub open spec fn parse_operands(
    input: Seq<u8>,
    st: ParseState,
    depth: nat,
    cfg: ParseOptions,
    count: nat,
    done: Seq<Expression>,
) -> Parsed<Seq<Expression>>
    decreases cfg.max_depth - depth, input.len() - st.pos, 41nat,
{
    if count == 0 {
        Ok((done, st))
    } else {
        match parse_expression(input, st, depth, cfg) {
            Err(e) => Err(e),
            Ok((x, st1)) => if moved_on(input, st.pos, st1) {
                parse_operands(input, st1, depth, cfg, (count - 1) as nat, done.push(x))
            } else {
                Err(Error::UnexpectedToken)
            },
        }
    }
}

/// `<call-offset> ::= h <number> _ | v <number> _ <number> _`
#[verifier::opaque]
pub open spec fn parse_call_offset(input: Seq<u8>, pos: int) -> Result<(CallOffset, int), Error> {
    match peek_at(input, pos) {
        None => Err(Error::UnexpectedEnd),
        Some(b) => if b == ('h' as u8) {
            match parse_number(input, pos + 1) {
                Err(e) => Err(e),
                Ok((n, p1)) => match peek_at(input, p1) {
                    None => Err(Error::UnexpectedEnd),
                    Some(u) => if u != ('_' as u8) {
                        Err(Error::UnexpectedToken)
                    } else {
                        Ok((CallOffset::NonVirtual(n), p1 + 1))
                    },
                },
            }
        } else if b == ('v' as u8) {
            match parse_number(input, pos + 1) {
                Err(e) => Err(e),
                Ok((n, p1)) => match peek_at(input, p1) {
                    None => Err(Error::UnexpectedEnd),
                    Some(u) => if u != ('_' as u8) {
                        Err(Error::UnexpectedToken)
                    } else {
                        match parse_number(input, p1 + 1) {
                            Err(e) => Err(e),
                            Ok((m, p2)) => match peek_at(input, p2) {
                                None => Err(Error::UnexpectedEnd),
                                Some(w) => if w != ('_' as u8) {
                                    Err(Error::UnexpectedToken)
                                } else {
                                    Ok((CallOffset::Virtual(n, m), p2 + 1))
                                },
                            },
                        }
                    },
                },
            }
        } else {
            Err(Error::UnexpectedToken)
        },
    }
}

/// A name and the types of the function that it names: `<name> <type>+`.
#[verifier::opaque]
pub open spec fn parse_function(input: Seq<u8>, st: ParseState, cfg: ParseOptions) -> Parsed<
    (model::Name, Seq<TypeHandle>),
> {
    match parse_name(input, st, 0, cfg) {
        Err(e) => Err(e),
        Ok((name, st1)) => match peek_at(input, st1.pos) {
            None => Err(Error::UnexpectedEnd),
            Some(c) => if !is_type_start(c) {
                Err(Error::UnexpectedToken)
            } else {
                match parse_type_list(input, st1, 0, cfg, Seq::empty()) {
                    Err(e) => Err(e),
                    Ok((types, st2)) => Ok(((name, types), st2)),
                }
            },
        },
    }
}

/// ```text
/// <special-name> ::= TV <type> | TT <type> | TI <type> | TS <type>
///                ::= GV <name>
///                ::= T <call-offset> <name> <type>+
///                ::= Tc <call-offset> <call-offset> <name> <type>+
///                ::= TC <type> <number> _ <type>
/// ```
#[verifier::opaque]
pub open spec fn parse_special_name(input: Seq<u8>, st: ParseState, cfg: ParseOptions) -> Parsed<
    model::SpecialName,
> {
    let pos = st.pos;
    match peek_at(input, pos) {
        None => Err(Error::UnexpectedEnd),
        Some(a) => match peek_at(input, pos + 1) {
            None => Err(Error::UnexpectedEnd),
            Some(b) => if a == ('T' as u8) && (b == ('V' as u8) || b == ('T' as u8) || b == (
            'I' as u8) || b == ('S' as u8)) {
                match parse_type(input, st.at(pos + 2), 0, cfg) {
                    Err(e) => Err(e),
                    Ok((h, st1)) => Ok(
                        (
                            if b == ('V' as u8) {
                                model::SpecialName::VirtualTable(h)
                            } else if b == ('T' as u8) {
                                model::SpecialName::Vtt(h)
                            } else if b == ('I' as u8) {
                                model::SpecialName::Typeinfo(h)
                            } else {
                                model::SpecialName::TypeinfoName(h)
                            },
                            st1,
                        ),
                    ),
                }
            } else if a == ('G' as u8) && b == ('V' as u8) {
                match parse_name(input, st.at(pos + 2), 0, cfg) {
                    Err(e) => Err(e),
                    Ok((n, st1)) => Ok((model::SpecialName::Guard(n), st1)),
                }
            } else if a == ('T' as u8) && (b == ('h' as u8) || b == ('v' as u8)) {
                match parse_call_offset(input, pos + 1) {
                    Err(e) => Err(e),
                    Ok((offset, p1)) => match parse_function(input, st.at(p1), cfg) {
                        Err(e) => Err(e),
                        Ok(((name, types), st1)) => Ok(
                            (model::SpecialName::OverrideThunk(offset, name, types), st1),
                        ),
                    },
                }
            } else if a == ('T' as u8) && b == ('c' as u8) {
                match parse_call_offset(input, pos + 2) {
                    Err(e) => Err(e),
                    Ok((this, p1)) => match parse_call_offset(input, p1) {
                        Err(e) => Err(e),
                        Ok((result, p2)) => match parse_function(input, st.at(p2), cfg) {
                            Err(e) => Err(e),
                            Ok(((name, types), st1)) => Ok(
                                (
                                    model::SpecialName::CovariantThunk(this, result, name, types),
                                    st1,
                                ),
                            ),
                        },
                    },
                }
            } else if a == ('T' as u8) && b == ('C' as u8) {
                match parse_type(input, st.at(pos + 2), 0, cfg) {
                    Err(e) => Err(e),
                    Ok((derived, st1)) => match parse_array_dimension(input, st1.pos) {
                        Err(e) => Err(e),
                        Ok((None, _)) => Err(Error::UnexpectedToken),
                        Ok((Some(offset), p2)) => match parse_type(input, st1.at(p2), 0, cfg) {
                            Err(e) => Err(e),
                            Ok((base, st2)) => Ok(
                                (
                                    model::SpecialName::ConstructionVtable(derived, offset, base),
                                    st2,
                                ),
                            ),
                        },
                    },
                }
            } else {
                Err(Error::UnexpectedToken)
            },
        },
    }
}

/// ```text
/// <encoding> ::= <name> <type>+
///            ::= <name>
///            ::= <special-name>
/// ```
/// A name is that of a function where a type begins behind it, and that of
/// a variable where none does.
#[verifier::opaque]
pub open spec fn parse_encoding(input: Seq<u8>, st: ParseState, cfg: ParseOptions) -> Parsed<
    model::Encoding,
> {
    match peek_at(input, st.pos) {
        None => Err(Error::UnexpectedEnd),
        Some(b) => if b == ('T' as u8) || b == ('G' as u8) {
            match parse_special_name(input, st, cfg) {
                Err(e) => Err(e),
                Ok((s, st1)) => Ok((model::Encoding::Special(s), st1)),
            }
        } else {
            match parse_name(input, st, 0, cfg) {
                Err(e) => Err(e),
                Ok((name, st1)) => if starts_type(input, st1.pos) {
                    match parse_type_list(input, st1, 0, cfg, Seq::empty()) {
                        Err(e) => Err(e),
                        Ok((types, st2)) => Ok((model::Encoding::Function(name, types), st2)),
                    }
                } else {
                    Ok((model::Encoding::Data(name), st1))
                },
            }
        },
    }
}

/// The bytes that the suffix of a clone is made of.
pub open spec fn is_suffix_byte(b: u8) -> bool {
    is_digit(b) || is_lower(b) || is_upper(b) || b == '_' as u8 || b == '.' as u8 || b == '$' as u8
}

/// The end of the run of suffix bytes that starts at `pos`.
pub open spec fn suffix_end(input: Seq<u8>, pos: int) -> int
    decreases input.len() - pos,
{
    if 0 <= pos < input.len() && is_suffix_byte(input[pos]) {
        suffix_end(input, pos + 1)
    } else {
        pos
    }
}

/// The encoding that ends at `st`, with the suffix of a clone where one
/// begins there: a `.` and the suffix bytes behind it.
pub open spec fn with_clone_suffix(input: Seq<u8>, encoding: model::Encoding, st: ParseState) -> (
    model::MangledName,
    ParseState,
) {
    if peek_at(input, st.pos) == Some('.' as u8) {
        let end = suffix_end(input, st.pos + 1);
        (model::MangledName { encoding, clone_suffix: Some(span(st.pos, end)) }, st.at(end))
    } else {
        (model::MangledName { encoding, clone_suffix: None }, st)
    }
}

/// Where the `_Z` of a mangled name is looked for: behind a `_` before
/// it, where the options allow one and one is there.
pub open spec fn mangled_start(input: Seq<u8>, cfg: ParseOptions) -> int {
    if cfg.leading_underscore && peek_at(input, 0) == Some(('_' as u8)) && peek_at(input, 1) == Some(
        ('_' as u8),
    ) {
        1
    } else {
        0
    }
}

/// `<mangled-name> ::= _Z <encoding> [. <suffix>]`, from the start of the
/// input, with an empty table. The state that comes back holds where the
/// name ends: what follows is no part of it.
#[verifier::opaque]
pub open spec fn parse_mangled_name(input: Seq<u8>, cfg: ParseOptions) -> Parsed<
    model::MangledName,
> {
    let start = mangled_start(input, cfg);
    match peek_at(input, start) {
        None => Err(Error::UnexpectedEnd),
        Some(u) => if u != ('_' as u8) {
            Err(Error::UnexpectedToken)
        } else {
            match peek_at(input, start + 1) {
                None => Err(Error::UnexpectedEnd),
                Some(z) => if z != ('Z' as u8) {
                    Err(Error::UnexpectedToken)
                } else {
                    match parse_encoding(
                        input,
                        ParseState { pos: start + 2, subs: Seq::empty() },
                        cfg,
                    ) {
                        Err(e) => Err(e),
                        Ok((encoding, st)) => Ok(with_clone_suffix(input, encoding, st)),
                    }
                },
            }
        },
    }
}

/// A mangled name that is the whole input: bytes behind it are an
/// `UnexpectedTrailingBytes`.
#[verifier::opaque]
pub open spec fn parse_whole(input: Seq<u8>, cfg: ParseOptions) -> Parsed<model::MangledName> {
    match parse_mangled_name(input, cfg) {
        Err(e) => Err(e),
        Ok((encoding, st)) => if st.pos == input.len() {
            Ok((encoding, st))
        } else {
            Err(Error::UnexpectedTrailingBytes)
        },
    }
}

} // verus!
