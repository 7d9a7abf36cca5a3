//! The production for types.
use vstd::prelude::*;
use crate::ast::{BuiltinType, FunctionType, Type, TypeHandle};
use crate::error::Error;
use crate::grammar;
use crate::grammar::ParseOptions;
use crate::index_str::IndexStr;
use crate::lex;
use crate::parse::expression::parse_expression;
use crate::parse::name::parse_name;
use crate::parse::template_args::parse_template_args;
use crate::parse::type_list::parse_type_list;
use crate::parse::{insert_type, parsed_as, state_of, type_handle};
use crate::subs::SubstitutionTable;

verus! {

/// `<type>`
pub fn parse_type<'a>(
    subs: &mut SubstitutionTable,
    input: IndexStr<'a>,
    depth: usize,
    cfg: &ParseOptions,
) -> (r: Result<(TypeHandle, IndexStr<'a>), Error>)
    ensures
        parsed_as(
            r,
            input,
            old(subs)@,
            final(subs)@,
            grammar::parse_type(input.buffer(), state_of(input, old(subs)@), depth as nat, *cfg),
        ),
    decreases cfg.max_depth - depth, input.buffer().len() - input.index(), 20nat,
{
    proof {
        reveal(grammar::parse_type);
    }
    let b = match input.peek() {
        None => { return Err(Error::UnexpectedEnd); },
        Some(b) => b,
    };
    if depth >= cfg.max_depth {
        Err(Error::RecursionLimitExceeded)
    } else if lex::is_builtin_code(b) {
        Ok((TypeHandle::Builtin(BuiltinType { extended: false, code: b }), input.bump()))
    } else if b == ('D' as u8) {
        match input.peek_second() {
            None => Err(Error::UnexpectedEnd),
            Some(c) => if lex::is_extended_builtin_code(c) {
                Ok((TypeHandle::Builtin(BuiltinType { extended: true, code: c }), input.bump2()))
            } else if c == ('p' as u8) {
                match parse_type(subs, input.bump2(), depth + 1, cfg) {
                    Err(e) => Err(e),
                    Ok((h, rest)) => Ok((insert_type(subs, Type::PackExpansion(h)), rest)),
                }
            } else if c == ('t' as u8) || c == ('T' as u8) {
                match parse_expression(subs, input.bump2(), depth + 1, cfg) {
                    Err(e) => Err(e),
                    Ok((value, p1)) => match p1.peek() {
                        None => Err(Error::UnexpectedEnd),
                        Some(e) => if e != ('E' as u8) {
                            Err(Error::UnexpectedToken)
                        } else {
                            Ok((insert_type(subs, Type::Decltype(value)), p1.bump()))
                        },
                    },
                }
            } else {
                Err(Error::UnexpectedToken)
            },
        }
    } else if b == ('r' as u8) || b == ('V' as u8) || b == ('K' as u8) {
        let (cv, p1) = lex::parse_cv_qualifiers(input);
        match parse_type(subs, p1, depth + 1, cfg) {
            Err(e) => Err(e),
            Ok((h, rest)) => Ok((insert_type(subs, Type::Qualified(cv, h)), rest)),
        }
    } else if b == ('P' as u8) || b == ('R' as u8) || b == ('O' as u8) || b == ('C' as u8) || b
        == ('G' as u8) {
        match parse_type(subs, input.bump(), depth + 1, cfg) {
            Err(e) => Err(e),
            Ok((h, rest)) => {
                let ty = if b == ('P' as u8) {
                    Type::PointerTo(h)
                } else if b == ('R' as u8) {
                    Type::LvalueRef(h)
                } else if b == ('O' as u8) {
                    Type::RvalueRef(h)
                } else if b == ('C' as u8) {
                    Type::Complex(h)
                } else {
                    Type::Imaginary(h)
                };
                Ok((insert_type(subs, ty), rest))
            },
        }
    } else if b == ('A' as u8) {
        match lex::parse_array_dimension(input.bump()) {
            Err(e) => Err(e),
            Ok((dim, p1)) => match parse_type(subs, p1, depth + 1, cfg) {
                Err(e) => Err(e),
                Ok((h, rest)) => Ok((insert_type(subs, Type::Array(dim, h)), rest)),
            },
        }
    } else if b == ('F' as u8) {
        let extern_c = lex::at_byte(&input.bump(), 'Y' as u8);
        let p1 = if extern_c {
            input.bump2()
        } else {
            input.bump()
        };
        match p1.peek() {
            None => Err(Error::UnexpectedEnd),
            Some(c) => if !lex::is_type_start(c) {
                Err(Error::UnexpectedToken)
            } else {
                match parse_type_list(subs, p1, depth + 1, cfg) {
                    Err(e) => Err(e),
                    Ok((bare, p2)) => match p2.peek() {
                        None => Err(Error::UnexpectedEnd),
                        Some(e) => if e != ('E' as u8) {
                            Err(Error::UnexpectedToken)
                        } else {
                            let ty = Type::Function(FunctionType { extern_c, bare });
                            Ok((insert_type(subs, ty), p2.bump()))
                        },
                    },
                }
            },
        }
    } else if b == ('M' as u8) {
        match parse_type(subs, input.bump(), depth + 1, cfg) {
            Err(e) => Err(e),
            Ok((class, p1)) => match parse_type(subs, p1, depth + 1, cfg) {
                Err(e) => Err(e),
                Ok((member, rest)) => Ok(
                    (insert_type(subs, Type::PointerToMember(class, member)), rest),
                ),
            },
        }
    } else if b == ('T' as u8) {
        match lex::parse_template_param(input) {
            Err(e) => Err(e),
            Ok((param, p1)) => {
                let h = insert_type(subs, Type::TemplateParam(param));
                if lex::at_byte(&p1, 'I' as u8) {
                    match parse_template_args(subs, p1, depth + 1, cfg) {
                        Err(e) => Err(e),
                        Ok((args, rest)) => Ok(
                            (insert_type(subs, Type::TemplateTemplate(h, args)), rest),
                        ),
                    }
                } else {
                    Ok((h, p1))
                }
            },
        }
    } else if b == ('S' as u8) && !lex::starts_std_name(&input) {
        match lex::parse_substitution(input, subs.len()) {
            Err(e) => Err(e),
            Ok((sub, p1)) => if lex::at_byte(&p1, 'I' as u8) {
                match parse_template_args(subs, p1, depth + 1, cfg) {
                    Err(e) => Err(e),
                    Ok((args, rest)) => Ok(
                        (insert_type(subs, Type::TemplateTemplate(type_handle(sub), args)), rest),
                    ),
                }
            } else {
                Ok((type_handle(sub), p1))
            },
        }
    } else if b == ('S' as u8) || b == ('N' as u8) || b == ('Z' as u8) || lex::is_digit(b) {
        match parse_name(subs, input, depth, cfg) {
            Err(e) => Err(e),
            Ok((name, rest)) => Ok((insert_type(subs, Type::ClassEnum(name)), rest)),
        }
    } else if b == ('u' as u8) && cfg.vendor_extensions {
        match lex::parse_source_name(input.bump()) {
            Err(e) => Err(e),
            Ok((name, rest)) => Ok((insert_type(subs, Type::VendorExtension(name)), rest)),
        }
    } else if b == ('U' as u8) && cfg.vendor_extensions {
        match lex::parse_source_name(input.bump()) {
            Err(e) => Err(e),
            Ok((name, p1)) => match parse_type(subs, p1, depth + 1, cfg) {
                Err(e) => Err(e),
                Ok((h, rest)) => Ok((insert_type(subs, Type::VendorQualified(name, h)), rest)),
            },
        }
    } else {
        Err(Error::UnexpectedToken)
    }
}

} // verus!
