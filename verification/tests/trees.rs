use cpp_demangle::ast::{
    BareFunctionType, BuiltinType, CtorDtorName, Encoding, Name, OperatorName, Prefix,
    PrefixHandle, SourceName, Span, Substitutable, TemplateArg, TemplateArgs, TemplateParam, Type,
    TypeHandle, UnqualifiedName, UnscopedName, WellKnownComponent,
};
use cpp_demangle::error::Error;
use cpp_demangle::grammar::ParseOptions;
use cpp_demangle::index_str::IndexStr;
use cpp_demangle::parse::encoding::{parse_encoding, parse_mangled_name};
use cpp_demangle::parse::types::parse_type;
use cpp_demangle::render::encoding::render_encoding;
use cpp_demangle::render::handle::render_handle;
use cpp_demangle::render::Renderer;
use cpp_demangle::subs::SubstitutionTable;
use cpp_demangle::Symbol;

const INT: TypeHandle = TypeHandle::Builtin(BuiltinType { extended: false, code: b'i' });

fn render_type_in(table: &SubstitutionTable, h: TypeHandle, fuel: usize) -> Result<String, Error> {
    let ctx = Renderer { subs: table, raw: b"", template_args: None };
    let mut active = Vec::new();
    let text = render_handle(h, Vec::new(), &ctx, &mut active, fuel)?;
    assert!(active.is_empty());
    Ok(String::from_utf8(text).unwrap())
}

#[test]
fn tree_of_a_simple_function() {
    let symbol = Symbol::new(&b"_Z3fooPi"[..]).unwrap();
    let name = Name::Unscoped(UnscopedName::Unqualified(UnqualifiedName::Source(SourceName(
        Span { start: 3, end: 6 },
    ))));
    let types = BareFunctionType(vec![TypeHandle::BackReference(0)]);
    assert_eq!(symbol.parsed().encoding, Encoding::Function(name, types));
    assert_eq!(symbol.substitutions().len(), 1);
    assert_eq!(symbol.substitutions().get(0), Ok(&Substitutable::Type(Type::PointerTo(INT))));
}

#[test]
fn tree_of_a_nested_name() {
    let symbol = Symbol::new(&b"_ZN1a1bIiE1cE"[..]).unwrap();
    let source = |start, end| UnqualifiedName::Source(SourceName(Span { start, end }));
    let table = symbol.substitutions();
    assert_eq!(table.len(), 3);
    assert_eq!(table.get(0), Ok(&Substitutable::Prefix(Prefix::Unqualified(source(4, 5)))));
    assert_eq!(
        table.get(1),
        Ok(&Substitutable::Prefix(Prefix::Nested(PrefixHandle::BackReference(0), source(6, 7))))
    );
    assert_eq!(
        table.get(2),
        Ok(&Substitutable::Prefix(Prefix::Template(
            PrefixHandle::BackReference(1),
            TemplateArgs(vec![TemplateArg::Type(INT)])
        )))
    );
    match &symbol.parsed().encoding {
        Encoding::Data(Name::Nested(nested)) => {
            assert_eq!(nested.name, Prefix::Nested(PrefixHandle::BackReference(2), source(11, 12)));
            assert_eq!(nested.ref_qualifier, None);
        }
        other => panic!("parsed as {:?}", other),
    }
    assert_eq!(symbol.to_text().unwrap(), "a::b<int>::c");
}

#[test]
fn every_handle_points_backwards() {
    let names: [&[u8]; 4] = [
        b"__Z28JS_GetPropertyDescriptorByIdP9JSContextN2JS6HandleIP8JSObjectEENS2_I4jsidEENS1_13MutableHandleINS1_18PropertyDescriptorEEE",
        b"_ZNSt6vectorIiSaIiEE9push_backERKi",
        b"_Z1fPPPPPPPPPPPP1AS_S0_S1_S2_S3_S4_S5_S6_S7_S8_S9_SA_SB_",
        b"_Z3fooILin5EEvPA10_M3BarFviE",
    ];
    let below = |h: &TypeHandle, n: usize| match h {
        TypeHandle::BackReference(i) => *i < n,
        _ => true,
    };
    for name in names.iter() {
        let symbol = Symbol::new(*name).unwrap();
        let table = symbol.substitutions();
        for i in 0..table.len() {
            match table.get(i).unwrap() {
                Substitutable::Type(Type::PointerTo(h))
                | Substitutable::Type(Type::LvalueRef(h))
                | Substitutable::Type(Type::RvalueRef(h))
                | Substitutable::Type(Type::Qualified(_, h))
                | Substitutable::Type(Type::Array(_, h)) => assert!(below(h, i)),
                Substitutable::Type(Type::PointerToMember(c, m)) => {
                    assert!(below(c, i) && below(m, i))
                }
                Substitutable::Type(Type::Function(f)) => {
                    assert!(f.bare.0.iter().all(|h| below(h, i)))
                }
                Substitutable::Prefix(Prefix::Nested(PrefixHandle::BackReference(j), _))
                | Substitutable::Prefix(Prefix::Template(PrefixHandle::BackReference(j), _)) => {
                    assert!(*j < i)
                }
                _ => {}
            }
        }
    }
}

#[test]
fn depth_counts_from_where_the_type_starts() {
    let cfg = ParseOptions { max_depth: 2, leading_underscore: true, vendor_extensions: true };
    let mut table = SubstitutionTable::new();
    let parsed = parse_type(&mut table, IndexStr::new(b"Pi"), 0, &cfg);
    assert_eq!(parsed.map(|(h, rest)| (h, rest.position())), Ok((TypeHandle::BackReference(0), 2)));
    let mut table = SubstitutionTable::new();
    let parsed = parse_type(&mut table, IndexStr::new(b"PPi"), 0, &cfg);
    assert_eq!(parsed.err(), Some(Error::RecursionLimitExceeded));
    let mut table = SubstitutionTable::new();
    let parsed = parse_type(&mut table, IndexStr::new(b"Pi"), 1, &cfg);
    assert_eq!(parsed.err(), Some(Error::RecursionLimitExceeded));
    let mut table = SubstitutionTable::new();
    let parsed = parse_type(&mut table, IndexStr::new(b"i"), 2, &cfg);
    assert_eq!(parsed.err(), Some(Error::RecursionLimitExceeded));
    let mut table = SubstitutionTable::new();
    let parsed = parse_type(&mut table, IndexStr::new(b""), 2, &cfg);
    assert_eq!(parsed.err(), Some(Error::UnexpectedEnd));
}

#[test]
fn nesting_of_template_arguments_and_conversions_is_limited() {
    let cfg = ParseOptions { max_depth: 4, leading_underscore: true, vendor_extensions: true };
    assert!(Symbol::new_with_options(&b"_Z1f1aI1bIiEE"[..], cfg).is_ok());
    assert_eq!(
        Symbol::new_with_options(&b"_Z1f1aI1bI1cI1dIiEEEE"[..], cfg).err(),
        Some(Error::RecursionLimitExceeded)
    );
    let mut deep = b"_Z".to_vec();
    for _ in 0..10_000 {
        deep.extend_from_slice(b"Ncv");
    }
    assert_eq!(Symbol::new(deep).err(), Some(Error::RecursionLimitExceeded));
    let mut deep = b"_Z1f".to_vec();
    for _ in 0..10_000 {
        deep.extend_from_slice(b"1aI");
    }
    assert_eq!(Symbol::new(deep).err(), Some(Error::RecursionLimitExceeded));
}

#[test]
fn encoding_parses_from_the_middle_of_a_buffer() {
    let cfg = ParseOptions::default();
    let mut table = SubstitutionTable::new();
    let input = IndexStr::new(b"xx3fooiE").skip(2).unwrap();
    let (encoding, rest) = parse_encoding(&mut table, input, &cfg).unwrap();
    assert_eq!(rest.position(), 7);
    assert_eq!(rest.tail(), b"E");
    let ctx = Renderer { subs: &table, raw: b"xx3fooiE", template_args: None };
    assert_eq!(render_encoding(&encoding, &ctx, 8).unwrap(), b"foo(int)");
}

#[test]
fn mangled_name_hands_back_table_and_cursor() {
    let cfg = ParseOptions::default();
    let (name, table, rest) = parse_mangled_name(b"_Z3fooPKc rest", &cfg).unwrap();
    assert_eq!(table.len(), 2);
    assert_eq!(rest.tail(), b" rest");
    let ctx = Renderer { subs: &table, raw: b"_Z3fooPKc rest", template_args: None };
    assert_eq!(render_encoding(&name.encoding, &ctx, 8).unwrap(), b"foo(char const*)");
    assert_eq!(parse_mangled_name(b"Z3foo", &cfg).err(), Some(Error::UnexpectedToken));
    assert_eq!(parse_mangled_name(b"_X3foo", &cfg).err(), Some(Error::UnexpectedToken));
    assert_eq!(parse_mangled_name(b"___Z3foo", &cfg).err(), Some(Error::UnexpectedToken));
}

#[test]
fn handle_to_itself_is_a_formatting_error() {
    let mut table = SubstitutionTable::new();
    table.insert(Substitutable::Type(Type::PointerTo(TypeHandle::BackReference(0))));
    assert_eq!(
        render_type_in(&table, TypeHandle::BackReference(0), 100),
        Err(Error::FormattingError)
    );
}

#[test]
fn handles_in_a_circle_are_a_formatting_error() {
    let mut table = SubstitutionTable::new();
    table.insert(Substitutable::Type(Type::PointerTo(TypeHandle::BackReference(2))));
    table.insert(Substitutable::Type(Type::LvalueRef(TypeHandle::BackReference(0))));
    table.insert(Substitutable::Type(Type::Array(None, TypeHandle::BackReference(1))));
    table.insert(Substitutable::Type(Type::PointerTo(INT)));
    for start in 0..3 {
        assert_eq!(
            render_type_in(&table, TypeHandle::BackReference(start), 100),
            Err(Error::FormattingError)
        );
    }
    assert_eq!(render_type_in(&table, TypeHandle::BackReference(3), 100).unwrap(), "int*");
}

#[test]
fn an_entry_may_be_reached_twice_side_by_side() {
    // no circle: the member pointer names entry 0 twice, one after the other
    let mut table = SubstitutionTable::new();
    table.insert(Substitutable::Type(Type::PointerTo(INT)));
    table.insert(Substitutable::Type(Type::PointerToMember(
        TypeHandle::BackReference(0),
        TypeHandle::BackReference(0),
    )));
    assert_eq!(
        render_type_in(&table, TypeHandle::BackReference(1), 100).unwrap(),
        "int* int*::*"
    );
}

#[test]
fn handle_out_of_the_table_is_a_formatting_error() {
    let table = SubstitutionTable::new();
    assert_eq!(
        render_type_in(&table, TypeHandle::BackReference(0), 100),
        Err(Error::FormattingError)
    );
    let mut table = SubstitutionTable::new();
    table.insert(Substitutable::Type(Type::PointerTo(TypeHandle::BackReference(7))));
    assert_eq!(
        render_type_in(&table, TypeHandle::BackReference(0), 100),
        Err(Error::FormattingError)
    );
}

#[test]
fn fuel_counts_the_handles_that_are_followed() {
    let mut table = SubstitutionTable::new();
    table.insert(Substitutable::Type(Type::PointerTo(INT)));
    table.insert(Substitutable::Type(Type::PointerTo(TypeHandle::BackReference(0))));
    table.insert(Substitutable::Type(Type::PointerTo(TypeHandle::BackReference(1))));
    let last = TypeHandle::BackReference(2);
    assert_eq!(render_type_in(&table, last, 3).unwrap(), "int***");
    assert_eq!(render_type_in(&table, last, 2), Err(Error::RecursionLimitExceeded));
    assert_eq!(render_type_in(&table, last, 0), Err(Error::RecursionLimitExceeded));
    assert_eq!(render_type_in(&table, INT, 0).unwrap(), "int");
}

#[test]
fn unknown_codes_are_a_formatting_error() {
    let table = SubstitutionTable::new();
    let odd = TypeHandle::Builtin(BuiltinType { extended: false, code: b'!' });
    assert_eq!(render_type_in(&table, odd, 10), Err(Error::FormattingError));
    let odd = TypeHandle::Builtin(BuiltinType { extended: true, code: b'z' });
    assert_eq!(render_type_in(&table, odd, 10), Err(Error::FormattingError));
    let odd = TypeHandle::WellKnown(WellKnownComponent(b'q'));
    assert_eq!(render_type_in(&table, odd, 10), Err(Error::FormattingError));
    let name = Name::Unscoped(UnscopedName::Unqualified(UnqualifiedName::Operator(
        OperatorName::Simple(b'z', b'z'),
    )));
    let ctx = Renderer { subs: &table, raw: b"", template_args: None };
    assert_eq!(render_encoding(&Encoding::Data(name), &ctx, 10), Err(Error::FormattingError));
}

#[test]
fn span_outside_the_input_is_a_formatting_error() {
    let table = SubstitutionTable::new();
    let encoding = |start, end| {
        Encoding::Data(Name::Unscoped(UnscopedName::Unqualified(UnqualifiedName::Source(
            SourceName(Span { start, end }),
        ))))
    };
    let ctx = Renderer { subs: &table, raw: b"abcdef", template_args: None };
    assert_eq!(render_encoding(&encoding(1, 4), &ctx, 10).unwrap(), b"bcd");
    assert_eq!(render_encoding(&encoding(0, 6), &ctx, 10).unwrap(), b"abcdef");
    assert_eq!(render_encoding(&encoding(3, 3), &ctx, 10).unwrap(), b"");
    assert_eq!(render_encoding(&encoding(4, 7), &ctx, 10), Err(Error::FormattingError));
    assert_eq!(render_encoding(&encoding(4, 3), &ctx, 10), Err(Error::FormattingError));
    assert_eq!(render_encoding(&encoding(usize::MAX, usize::MAX), &ctx, 10), Err(Error::FormattingError));
}

#[test]
fn constructor_without_a_class_is_a_formatting_error() {
    let table = SubstitutionTable::new();
    let name = Name::Unscoped(UnscopedName::Unqualified(UnqualifiedName::CtorDtor(
        CtorDtorName::CompleteConstructor,
    )));
    let ctx = Renderer { subs: &table, raw: b"", template_args: None };
    assert_eq!(render_encoding(&Encoding::Data(name), &ctx, 10), Err(Error::FormattingError));
    assert_eq!(
        Symbol::new(&b"_ZC1v"[..]).unwrap().to_text().err(),
        Some(Error::FormattingError)
    );
}

#[test]
fn template_parameter_reads_the_enclosing_arguments() {
    let mut table = SubstitutionTable::new();
    table.insert(Substitutable::Type(Type::TemplateParam(TemplateParam(1))));
    let args = TemplateArgs(vec![TemplateArg::Type(INT), TemplateArg::Type(TypeHandle::BackReference(0))]);
    let mut active = Vec::new();
    let inside = Renderer { subs: &table, raw: b"", template_args: Some(&args) };
    // the second argument is the parameter itself: it is rendered as
    // outside any template, where it stands for nothing
    assert_eq!(
        render_handle(TypeHandle::BackReference(0), Vec::new(), &inside, &mut active, 10),
        Err(Error::FormattingError)
    );
    let args = TemplateArgs(vec![TemplateArg::Type(INT), TemplateArg::Type(INT)]);
    let inside = Renderer { subs: &table, raw: b"", template_args: Some(&args) };
    assert_eq!(
        render_handle(TypeHandle::BackReference(0), b"*".to_vec(), &inside, &mut active, 10).unwrap(),
        b"int*"
    );
    assert_eq!(
        render_handle(TypeHandle::BackReference(0), Vec::new(), &inside.outside_template(), &mut active, 10),
        Err(Error::FormattingError)
    );
}

#[test]
fn numbers_in_decimal() {
    let mut out = b"x".to_vec();
    cpp_demangle::render::push_decimal(&mut out, 0);
    cpp_demangle::render::push_decimal(&mut out, 7);
    cpp_demangle::render::push_decimal(&mut out, 10);
    cpp_demangle::render::push_decimal(&mut out, 9_876_543_210);
    cpp_demangle::render::push_decimal(&mut out, u128::MAX);
    assert_eq!(out, b"x07109876543210340282366920938463463374607431768211455".to_vec());
    let mut out = Vec::new();
    cpp_demangle::render::push_ordinal(&mut out, None);
    cpp_demangle::render::push_ordinal(&mut out, Some(0));
    cpp_demangle::render::push_ordinal(&mut out, Some(usize::MAX));
    let max = (usize::MAX as u128 + 2).to_string();
    assert_eq!(String::from_utf8(out).unwrap(), format!("#1}}#2}}#{}}}", max));
}
