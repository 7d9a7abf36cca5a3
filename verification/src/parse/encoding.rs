//! The productions at the top of the grammar: encodings, special names and
//! the mangled name itself.

use vstd::prelude::*;
use crate::ast::{BareFunctionType, Encoding, MangledName, Name, SpecialName};
use crate::error::Error;
use crate::grammar;
use crate::grammar::ParseOptions;
use crate::index_str::IndexStr;
use crate::lex;
use crate::parse::name::parse_name;
use crate::parse::type_list::parse_type_list;
use crate::parse::types::parse_type;
use crate::parse::{extends, parsed_view_as, state_of};
use crate::subs::SubstitutionTable;

verus! {

/// A name and the types of the function that it names: `<name> <type>+`.
pub fn parse_function<'a>(
    subs: &mut SubstitutionTable,
    input: IndexStr<'a>,
    cfg: &ParseOptions,
) -> (r: Result<((Name, BareFunctionType), IndexStr<'a>), Error>)
    ensures
        extends(final(subs)@, old(subs)@),
        match grammar::parse_function(input.buffer(), state_of(input, old(subs)@), *cfg) {
            Ok(((name, types), st)) => r matches Ok(((n, t), rest)) && n@ == name && t@ == types
                && rest.buffer() == input.buffer() && rest.index() == st.pos && final(subs)@
                == st.subs && input.index() < st.pos <= input.buffer().len(),
            Err(e) => r matches Err(x) && x == e,
        },
{
    proof {
        reveal(grammar::parse_function);
    }
    match parse_name(subs, input, 0, cfg) {
        Err(e) => Err(e),
        Ok((name, p1)) => match p1.peek() {
            None => Err(Error::UnexpectedEnd),
            Some(c) => if !lex::is_type_start(c) {
                Err(Error::UnexpectedToken)
            } else {
                match parse_type_list(subs, p1, 0, cfg) {
                    Err(e) => Err(e),
                    Ok((types, rest)) => Ok(((name, types), rest)),
                }
            },
        },
    }
}

/// `<special-name>`
pub fn parse_special_name<'a>(
    subs: &mut SubstitutionTable,
    input: IndexStr<'a>,
    cfg: &ParseOptions,
) -> (r: Result<(SpecialName, IndexStr<'a>), Error>)
    ensures
        parsed_view_as(
            r,
            input,
            old(subs)@,
            final(subs)@,
            grammar::parse_special_name(input.buffer(), state_of(input, old(subs)@), *cfg),
        ),
{
    proof {
        reveal(grammar::parse_special_name);
    }
    match input.peek() {
        None => Err(Error::UnexpectedEnd),
        Some(a) => match input.peek_second() {
            None => Err(Error::UnexpectedEnd),
            Some(b) => if a == ('T' as u8) && (b == ('V' as u8) || b == ('T' as u8) || b == (
            'I' as u8) || b == ('S' as u8)) {
                match parse_type(subs, input.bump2(), 0, cfg) {
                    Err(e) => Err(e),
                    Ok((h, rest)) => Ok(
                        (
                            if b == ('V' as u8) {
                                SpecialName::VirtualTable(h)
                            } else if b == ('T' as u8) {
                                SpecialName::Vtt(h)
                            } else if b == ('I' as u8) {
                                SpecialName::Typeinfo(h)
                            } else {
                                SpecialName::TypeinfoName(h)
                            },
                            rest,
                        ),
                    ),
                }
            } else if a == ('G' as u8) && b == ('V' as u8) {
                match parse_name(subs, input.bump2(), 0, cfg) {
                    Err(e) => Err(e),
                    Ok((n, rest)) => Ok((SpecialName::Guard(n), rest)),
                }
            } else if a == ('T' as u8) && (b == ('h' as u8) || b == ('v' as u8)) {
                match lex::parse_call_offset(input.bump()) {
                    Err(e) => Err(e),
                    Ok((offset, p1)) => match parse_function(subs, p1, cfg) {
                        Err(e) => Err(e),
                        Ok(((name, types), rest)) => Ok(
                            (SpecialName::OverrideThunk(offset, name, types), rest),
                        ),
                    },
                }
            } else if a == ('T' as u8) && b == ('c' as u8) {
                match lex::parse_call_offset(input.bump2()) {
                    Err(e) => Err(e),
                    Ok((this, p1)) => match lex::parse_call_offset(p1) {
                        Err(e) => Err(e),
                        Ok((result, p2)) => match parse_function(subs, p2, cfg) {
                            Err(e) => Err(e),
                            Ok(((name, types), rest)) => Ok(
                                (SpecialName::CovariantThunk(this, result, name, types), rest),
                            ),
                        },
                    },
                }
            } else if a == ('T' as u8) && b == ('C' as u8) {
                match parse_type(subs, input.bump2(), 0, cfg) {
                    Err(e) => Err(e),
                    Ok((derived, p1)) => match lex::parse_array_dimension(p1) {
                        Err(e) => Err(e),
                        Ok((None, _)) => Err(Error::UnexpectedToken),
                        Ok((Some(offset), p2)) => match parse_type(subs, p2, 0, cfg) {
                            Err(e) => Err(e),
                            Ok((base, rest)) => Ok(
                                (SpecialName::ConstructionVtable(derived, offset, base), rest),
                            ),
                        },
                    },
                }
            } else {
                Err(Error::UnexpectedToken)
            },
        },
    }
}

/// `<encoding>`
pub fn parse_encoding<'a>(
    subs: &mut SubstitutionTable,
    input: IndexStr<'a>,
    cfg: &ParseOptions,
) -> (r: Result<(Encoding, IndexStr<'a>), Error>)
    ensures
        parsed_view_as(
            r,
            input,
            old(subs)@,
            final(subs)@,
            grammar::parse_encoding(input.buffer(), state_of(input, old(subs)@), *cfg),
        ),
{
    proof {
        reveal(grammar::parse_encoding);
    }
    match input.peek() {
        None => Err(Error::UnexpectedEnd),
        Some(b) => if b == ('T' as u8) || b == ('G' as u8) {
            match parse_special_name(subs, input, cfg) {
                Err(e) => Err(e),
                Ok((s, rest)) => Ok((Encoding::Special(s), rest)),
            }
        } else {
            match parse_name(subs, input, 0, cfg) {
                Err(e) => Err(e),
                Ok((name, p1)) => if lex::starts_type(&p1) {
                    match parse_type_list(subs, p1, 0, cfg) {
                        Err(e) => Err(e),
                        Ok((types, rest)) => Ok((Encoding::Function(name, types), rest)),
                    }
                } else {
                    Ok((Encoding::Data(name), p1))
                },
            }
        },
    }
}

/// `<mangled-name>`, from the start of `bytes`: the name, the table of its
/// substitutions, and the cursor behind the name.
pub fn parse_mangled_name<'a>(bytes: &'a [u8], cfg: &ParseOptions) -> (r: Result<
    (MangledName, SubstitutionTable, IndexStr<'a>),
    Error,
>)
    ensures
        match grammar::parse_mangled_name(bytes@, *cfg) {
            Ok((mangled, st)) => r matches Ok((name, table, rest)) && name@ == mangled && table@
                == st.subs && rest.buffer() == bytes@ && rest.index() == st.pos && 2 <= st.pos
                <= bytes@.len(),
            Err(e) => r matches Err(x) && x == e,
        },
{
    proof {
        reveal(grammar::parse_mangled_name);
    }
    let input = IndexStr::new(bytes);
    let start = if cfg.leading_underscore && lex::at_byte(&input, '_' as u8) && lex::at_byte(
        &input.bump(),
        '_' as u8,
    ) {
        input.bump()
    } else {
        input
    };
    match start.peek() {
        None => Err(Error::UnexpectedEnd),
        Some(u) => if u != ('_' as u8) {
            Err(Error::UnexpectedToken)
        } else {
            match start.peek_second() {
                None => Err(Error::UnexpectedEnd),
                Some(z) => if z != ('Z' as u8) {
                    Err(Error::UnexpectedToken)
                } else {
                    let mut subs = SubstitutionTable::new();
                    match parse_encoding(&mut subs, start.bump2(), cfg) {
                        Err(e) => Err(e),
                        Ok((encoding, rest)) => if lex::at_byte(&rest, '.' as u8) {
                            let end = lex::skip_suffix(rest.bump());
                            let clone_suffix = Some(lex::span_between(&rest, &end));
                            Ok((MangledName { encoding, clone_suffix }, subs, end))
                        } else {
                            Ok((MangledName { encoding, clone_suffix: None }, subs, rest))
                        },
                    }
                },
            }
        },
    }
}

} // verus!
