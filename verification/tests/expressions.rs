use cpp_demangle::ast::{
    BuiltinType, Encoding, Expression, Name, Number, Span, Substitutable, TemplateArg,
    TemplateParam, Type, TypeHandle,
};
use cpp_demangle::error::Error;
use cpp_demangle::grammar::ParseOptions;
use cpp_demangle::index_str::IndexStr;
use cpp_demangle::parse::expression::parse_expression;
use cpp_demangle::parse::operands::parse_operands;
use cpp_demangle::render::expression::render_expression;
use cpp_demangle::render::Renderer;
use cpp_demangle::subs::SubstitutionTable;
use cpp_demangle::Symbol;

const INT: TypeHandle = TypeHandle::Builtin(BuiltinType { extended: false, code: b'i' });

fn demangle(mangled: &[u8]) -> String {
    let symbol = Symbol::new(mangled).expect("the name parses");
    symbol.to_text().expect("the name renders")
}

fn literal(start: usize, end: usize) -> Expression {
    Expression::Literal(INT, Some(Number { negative: false, digits: Span { start, end } }))
}

#[test]
fn expressions_as_template_arguments() {
    assert_eq!(demangle(b"_Z1fIXplLi1ELi2EEEvv"), "void f<1+2>()");
    assert_eq!(demangle(b"_Z1fIXmiLi1ELin2EEEvv"), "void f<1--2>()");
    assert_eq!(demangle(b"_Z1fIXngLi1EEEvv"), "void f<-1>()");
    assert_eq!(demangle(b"_Z1fIXntLb0EEEvv"), "void f<!false>()");
    assert_eq!(demangle(b"_Z1fIXquLb1ELi1ELi2EEEvv"), "void f<true?1:2>()");
    assert_eq!(demangle(b"_Z1fIXstiEEvv"), "void f<sizeof (int)>()");
    assert_eq!(demangle(b"_Z1fIXszLi1EEEvv"), "void f<sizeof (1)>()");
    assert_eq!(demangle(b"_Z1fIXcvjLi1EEEvv"), "void f<(unsigned int)1>()");
    assert_eq!(demangle(b"_Z1fIXLDnEEEvv"), "void f<nullptr>()");
    assert_eq!(demangle(b"_Z1fIXL3FooEEEvv"), "void f<(Foo)>()");
    assert_eq!(demangle(b"_Z1fIXppLi1EEEvv"), "void f<1++>()");
    assert_eq!(demangle(b"_Z1fIXixLi1ELi2EEEvv"), "void f<1[2]>()");
    assert_eq!(demangle(b"_Z1fIXcmLi1ELi2EEEvv"), "void f<1,2>()");
}

#[test]
fn operands_with_operators_stand_in_parentheses() {
    assert_eq!(demangle(b"_Z1fIXplplLi1ELi2ELi3EEEvv"), "void f<(1+2)+3>()");
    assert_eq!(demangle(b"_Z1fIXmlLi2EplLi1ELi2EEEvv"), "void f<2*(1+2)>()");
    assert_eq!(demangle(b"_Z1fIXngngLi1EEEvv"), "void f<-(-1)>()");
    assert_eq!(demangle(b"_Z1fIXcvistcEEvv"), "void f<(int)(sizeof (char))>()");
    assert_eq!(
        demangle(b"_Z1fIXquntLb1EplLi1ELi2ELi3EEEvv"),
        "void f<(!true)?(1+2):3>()"
    );
}

#[test]
fn greater_than_does_not_close_the_angle() {
    assert_eq!(demangle(b"_Z1fIXgtLi1ELi2EEEvv"), "void f<(1>2)>()");
    assert_eq!(demangle(b"_Z1fIXgeLi1ELi2EEEvv"), "void f<(1>=2)>()");
    assert_eq!(demangle(b"_Z1fIXrsLi8ELi2EEEvv"), "void f<(8>>2)>()");
    assert_eq!(demangle(b"_Z1fIXltLi1ELi2EEEvv"), "void f<1<2>()");
    assert_eq!(demangle(b"_Z1f1aIXgtLi1ELi2EEE"), "f(a<(1>2)>)");
}

#[test]
fn decltype_of_an_expression() {
    assert_eq!(demangle(b"_Z1fIiEDTplT_Li1EEi"), "decltype (int+1) f<int>(int)");
    assert_eq!(
        demangle(b"_Z1fIiEDTplT_Li1EES0_"),
        "decltype (int+1) f<int>(decltype (int+1))"
    );
    assert_eq!(demangle(b"_Z1fDtLi1EE"), "f(decltype (1))");
    assert_eq!(demangle(b"_Z1fPDTstiE"), "f(decltype (sizeof (int))*)");
    assert_eq!(demangle(b"_Z1fDtLi1EES_"), "f(decltype (1), decltype (1))");
}

#[test]
fn template_parameter_in_an_expression_needs_a_template() {
    let symbol = Symbol::new(&b"_Z1fIXplT_Li1EEEvv"[..]).unwrap();
    assert_eq!(symbol.to_text().err(), Some(Error::FormattingError));
    assert_eq!(demangle(b"_Z1fIiLi3EEvDTplT0_T0_E"), "void f<int, 3>(decltype (3+3))");
}

#[test]
fn tree_of_an_expression() {
    let symbol = Symbol::new(&b"_Z1fIXplLi1EngT_EEvv"[..]).unwrap();
    let expected = Expression::Binary(
        b'p',
        b'l',
        Box::new(literal(10, 11)),
        Box::new(Expression::Unary(b'n', b'g', Box::new(Expression::TemplateParam(TemplateParam(0))))),
    );
    match &symbol.parsed().encoding {
        Encoding::Function(Name::UnscopedTemplate(_, args), _) => {
            assert_eq!(args.0, vec![TemplateArg::Expression(expected.clone())]);
        }
        other => panic!("parsed as {:?}", other),
    }
    let symbol = Symbol::new(&b"_Z1fDtplLi1EngT_E"[..]).unwrap();
    assert_eq!(
        symbol.substitutions().get(0),
        Ok(&Substitutable::Type(Type::Decltype(Expression::Binary(
            b'p',
            b'l',
            Box::new(literal(10, 11)),
            Box::new(Expression::Unary(
                b'n',
                b'g',
                Box::new(Expression::TemplateParam(TemplateParam(0)))
            )),
        ))))
    );
}

#[test]
fn expressions_by_themselves() {
    let cfg = ParseOptions::default();
    let parse = |text: &'static [u8]| {
        let mut table = SubstitutionTable::new();
        parse_expression(&mut table, IndexStr::new(text), 0, &cfg).map(|(e, rest)| (e, rest.position()))
    };
    assert_eq!(parse(b"Li1E"), Ok((literal(2, 3), 4)));
    assert_eq!(parse(b"T_"), Ok((Expression::TemplateParam(TemplateParam(0)), 2)));
    assert_eq!(parse(b"sti"), Ok((Expression::SizeofType(INT), 3)));
    assert_eq!(parse(b"ngLi1E"), Ok((Expression::Unary(b'n', b'g', Box::new(literal(4, 5))), 6)));
    assert_eq!(parse(b"LiE"), Ok((Expression::Literal(INT, None), 3)));
    assert_eq!(parse(b""), Err(Error::UnexpectedEnd));
    assert_eq!(parse(b"p"), Err(Error::UnexpectedEnd));
    assert_eq!(parse(b"pl"), Err(Error::UnexpectedEnd));
    assert_eq!(parse(b"plLi1E"), Err(Error::UnexpectedEnd));
    assert_eq!(parse(b"L"), Err(Error::UnexpectedEnd));
    assert_eq!(parse(b"Li"), Err(Error::UnexpectedEnd));
    assert_eq!(parse(b"Li1"), Err(Error::UnexpectedEnd));
    assert_eq!(parse(b"Li1x"), Err(Error::UnexpectedToken));
    assert_eq!(parse(b"Lix"), Err(Error::UnexpectedToken));
    assert_eq!(parse(b"xx"), Err(Error::UnexpectedToken));
    assert_eq!(parse(b"nwi"), Err(Error::UnexpectedToken));
    assert_eq!(parse(b"clLi1E"), Err(Error::UnexpectedToken));
    assert_eq!(parse(b"LS_1E"), Err(Error::InvalidBackReference));
}

#[test]
fn operands_are_counted() {
    let cfg = ParseOptions::default();
    let mut table = SubstitutionTable::new();
    let (operands, rest) = parse_operands(&mut table, IndexStr::new(b"Li1ELi2ELi3E"), 0, &cfg, 2).unwrap();
    assert_eq!(operands, vec![literal(2, 3), literal(6, 7)]);
    assert_eq!(rest.position(), 8);
    let (operands, rest) = parse_operands(&mut table, IndexStr::new(b"Li1E"), 0, &cfg, 0).unwrap();
    assert!(operands.is_empty());
    assert_eq!(rest.position(), 0);
    assert_eq!(
        parse_operands(&mut table, IndexStr::new(b"Li1E"), 0, &cfg, 2).err(),
        Some(Error::UnexpectedEnd)
    );
}

#[test]
fn nesting_of_expressions_is_limited() {
    let mut deep = b"_Z1fIX".to_vec();
    for _ in 0..50_000 {
        deep.extend_from_slice(b"ng");
    }
    deep.extend_from_slice(b"Li1EEEvv");
    assert_eq!(Symbol::new(deep).err(), Some(Error::RecursionLimitExceeded));
    let mut deep = b"_Z1f".to_vec();
    for _ in 0..50_000 {
        deep.extend_from_slice(b"Dtst");
    }
    assert_eq!(Symbol::new(deep).err(), Some(Error::RecursionLimitExceeded));
    let tight = ParseOptions { max_depth: 4, leading_underscore: true, vendor_extensions: true };
    assert!(Symbol::new_with_options(&b"_Z1fIXngLi1EEEvv"[..], tight).is_ok());
    assert_eq!(
        Symbol::new_with_options(&b"_Z1fIXngngLi1EEEvv"[..], tight).err(),
        Some(Error::RecursionLimitExceeded)
    );
}

#[test]
fn cut_expressions_end_unexpectedly() {
    let names: [&[u8]; 4] = [
        b"_Z1fIXquntLb1EplLi1ELi2ELi3EEEvv",
        b"_Z1fIiEDTplT_Li1EES0_",
        b"_Z1fIXcvjLin12EEEvPDTstS_E",
        b"_Z1fIXLDnEEEvv",
    ];
    for name in names.iter() {
        assert!(Symbol::new(*name).is_ok());
        for cut in 0..name.len() {
            match Symbol::new(&name[..cut]) {
                Ok(_) => {}
                Err(e) => assert_eq!(e, Error::UnexpectedEnd, "cut at {}", cut),
            }
        }
    }
}

#[test]
fn unknown_operator_is_a_formatting_error() {
    let table = SubstitutionTable::new();
    let ctx = Renderer { subs: &table, raw: b"12", template_args: None };
    let mut active = Vec::new();
    let odd = Expression::Unary(b'z', b'z', Box::new(literal(0, 1)));
    assert_eq!(render_expression(&odd, &ctx, &mut active, 10), Err(Error::FormattingError));
    let fine = Expression::Binary(b'p', b'l', Box::new(literal(0, 1)), Box::new(literal(1, 2)));
    assert_eq!(render_expression(&fine, &ctx, &mut active, 10).unwrap(), b"1+2");
    let out = Expression::Binary(b'p', b'l', Box::new(literal(0, 1)), Box::new(literal(1, 3)));
    assert_eq!(render_expression(&out, &ctx, &mut active, 10), Err(Error::FormattingError));
}
