use cpp_demangle::ast::{
    BuiltinType, CvQualifiers, Number, SourceName, Span, Substitutable, Substitution,
    TemplateParam, Type, TypeHandle, UnqualifiedName, UnscopedName, WellKnownComponent,
};
use cpp_demangle::error::Error;
use cpp_demangle::index_str::IndexStr;
use cpp_demangle::lex;
use cpp_demangle::subs::SubstitutionTable;

#[test]
fn cursor_starts_at_the_front() {
    let cursor = IndexStr::new(b"abc");
    assert_eq!(cursor.position(), 0);
    assert_eq!(cursor.len(), 3);
    assert!(!cursor.is_empty());
    assert_eq!(cursor.peek(), Some(b'a'));
    assert_eq!(cursor.peek_second(), Some(b'b'));
    assert_eq!(cursor.peek_third(), Some(b'c'));
    assert_eq!(cursor.bytes(), b"abc");
    assert_eq!(cursor.tail(), b"abc");
}

#[test]
fn cursor_takes_a_prefix() {
    let cursor = IndexStr::new(b"abcdef");
    let (head, rest) = cursor.take(2).unwrap();
    assert_eq!(head, b"ab");
    assert_eq!(rest.position(), 2);
    assert_eq!(rest.tail(), b"cdef");
    assert_eq!(rest.peek(), Some(b'c'));
    // the cursor that was taken from is as it was
    assert_eq!(cursor.position(), 0);
    assert_eq!(cursor.peek(), Some(b'a'));
    let (all, end) = rest.take(4).unwrap();
    assert_eq!(all, b"cdef");
    assert!(end.is_empty());
    assert_eq!(end.peek(), None);
    assert_eq!(end.len(), 0);
    let (none, same) = end.take(0).unwrap();
    assert_eq!(none, b"");
    assert_eq!(same.position(), 6);
}

#[test]
fn cursor_refuses_to_leave_the_buffer() {
    let cursor = IndexStr::new(b"abc");
    assert_eq!(cursor.take(4).err(), Some(Error::UnexpectedEnd));
    assert_eq!(cursor.take(usize::MAX).err(), Some(Error::UnexpectedEnd));
    assert_eq!(cursor.skip(4).err(), Some(Error::UnexpectedEnd));
    assert_eq!(cursor.skip(3).unwrap().position(), 3);
    let far = cursor.skip(2).unwrap();
    assert_eq!(far.take(usize::MAX).err(), Some(Error::UnexpectedEnd));
    assert_eq!(far.peek_second(), None);
    assert_eq!(far.peek_third(), None);
    assert_eq!(far.bump().peek(), None);
    assert_eq!(cursor.bump2().peek(), Some(b'c'));
    let empty = IndexStr::new(b"");
    assert!(empty.is_empty());
    assert_eq!(empty.peek(), None);
    assert_eq!(empty.take(1).err(), Some(Error::UnexpectedEnd));
}

#[test]
fn table_hands_out_indices_in_order() {
    let mut table = SubstitutionTable::new();
    assert!(table.is_empty());
    assert_eq!(table.len(), 0);
    let int = TypeHandle::Builtin(BuiltinType { extended: false, code: b'i' });
    let first = Substitutable::Type(Type::PointerTo(int));
    let second = Substitutable::Type(Type::LvalueRef(TypeHandle::BackReference(0)));
    assert_eq!(table.insert(first.clone()), 0);
    assert_eq!(table.insert(second.clone()), 1);
    assert_eq!(table.len(), 2);
    assert!(!table.is_empty());
    assert_eq!(table.get(0), Ok(&first));
    assert_eq!(table.get(1), Ok(&second));
    assert_eq!(table.get(2), Err(Error::InvalidBackReference));
    assert_eq!(table.get(usize::MAX), Err(Error::InvalidBackReference));
}

#[test]
fn table_entries_stay_as_they_were() {
    let mut table = SubstitutionTable::new();
    let name = UnscopedName::Unqualified(UnqualifiedName::Source(SourceName(Span {
        start: 1,
        end: 4,
    })));
    let first = Substitutable::UnscopedTemplateName(name);
    table.insert(first.clone());
    for i in 0..100 {
        table.insert(Substitutable::Type(Type::TemplateParam(TemplateParam(i))));
        assert_eq!(table.get(0), Ok(&first));
    }
    assert_eq!(table.get(50), Ok(&Substitutable::Type(Type::TemplateParam(TemplateParam(49)))));
}

#[test]
fn numbers() {
    let (number, rest) = lex::parse_number(IndexStr::new(b"123_")).unwrap();
    assert_eq!(number, Number { negative: false, digits: Span { start: 0, end: 3 } });
    assert_eq!(rest.position(), 3);
    let (number, rest) = lex::parse_number(IndexStr::new(b"n42")).unwrap();
    assert_eq!(number, Number { negative: true, digits: Span { start: 1, end: 3 } });
    assert!(rest.is_empty());
    assert_eq!(lex::parse_number(IndexStr::new(b"")).err(), Some(Error::UnexpectedEnd));
    assert_eq!(lex::parse_number(IndexStr::new(b"n")).err(), Some(Error::UnexpectedEnd));
    assert_eq!(lex::parse_number(IndexStr::new(b"x1")).err(), Some(Error::UnexpectedToken));
    assert_eq!(lex::parse_number(IndexStr::new(b"nn1")).err(), Some(Error::UnexpectedToken));
}

#[test]
fn decimal_digits() {
    let (value, rest) = lex::read_decimal(IndexStr::new(b"1234x"));
    assert_eq!(value, Some(1234));
    assert_eq!(rest.position(), 4);
    let (value, rest) = lex::read_decimal(IndexStr::new(b"x"));
    assert_eq!(value, Some(0));
    assert_eq!(rest.position(), 0);
    let (value, rest) = lex::read_decimal(IndexStr::new(b"007"));
    assert_eq!(value, Some(7));
    assert!(rest.is_empty());
    let (value, rest) = lex::read_decimal(IndexStr::new(b"18446744073709551615"));
    assert_eq!(value, Some(u64::MAX as usize));
    assert!(rest.is_empty());
    let (value, rest) = lex::read_decimal(IndexStr::new(b"18446744073709551616 "));
    assert_eq!(value, None);
    assert_eq!(rest.position(), 20);
    let (value, _) = lex::read_decimal(IndexStr::new(b"99999999999999999999999999999999"));
    assert_eq!(value, None);
}

#[test]
fn base_36_digits() {
    let (value, rest) = lex::read_base36(IndexStr::new(b"Z_"));
    assert_eq!(value, Some(35));
    assert_eq!(rest.position(), 1);
    let (value, _) = lex::read_base36(IndexStr::new(b"10_"));
    assert_eq!(value, Some(36));
    let (value, _) = lex::read_base36(IndexStr::new(b"1A_"));
    assert_eq!(value, Some(46));
    let (value, _) = lex::read_base36(IndexStr::new(b"ZZ_"));
    assert_eq!(value, Some(35 * 36 + 35));
    let (value, rest) = lex::read_base36(IndexStr::new(b"a"));
    assert_eq!(value, Some(0));
    assert_eq!(rest.position(), 0);
    let (value, _) = lex::read_base36(IndexStr::new(b"ZZZZZZZZZZZZZZZZZZZZ"));
    assert_eq!(value, None);
}

#[test]
fn source_names() {
    let (name, rest) = lex::parse_source_name(IndexStr::new(b"3fooi")).unwrap();
    assert_eq!(name, SourceName(Span { start: 1, end: 4 }));
    assert_eq!(rest.tail(), b"i");
    let (name, rest) = lex::parse_source_name(IndexStr::new(b"10abcdefghij")).unwrap();
    assert_eq!(name, SourceName(Span { start: 2, end: 12 }));
    assert!(rest.is_empty());
    assert_eq!(lex::parse_source_name(IndexStr::new(b"3fo")).err(), Some(Error::UnexpectedEnd));
    assert_eq!(lex::parse_source_name(IndexStr::new(b"3")).err(), Some(Error::UnexpectedEnd));
    assert_eq!(lex::parse_source_name(IndexStr::new(b"")).err(), Some(Error::UnexpectedEnd));
    assert_eq!(lex::parse_source_name(IndexStr::new(b"0")).err(), Some(Error::UnexpectedToken));
    assert_eq!(lex::parse_source_name(IndexStr::new(b"03foo")).err(), Some(Error::UnexpectedToken));
    assert_eq!(lex::parse_source_name(IndexStr::new(b"foo")).err(), Some(Error::UnexpectedToken));
    assert_eq!(
        lex::parse_source_name(IndexStr::new(b"99999999999999999999999999foo")).err(),
        Some(Error::UnexpectedEnd)
    );
    assert_eq!(
        lex::parse_source_name(IndexStr::new(b"18446744073709551615foo")).err(),
        Some(Error::UnexpectedEnd)
    );
}

#[test]
fn qualifiers() {
    let (cv, rest) = lex::parse_cv_qualifiers(IndexStr::new(b"rVKi"));
    assert_eq!(cv, CvQualifiers { restrict: true, volatile: true, const_: true });
    assert_eq!(rest.position(), 3);
    let (cv, rest) = lex::parse_cv_qualifiers(IndexStr::new(b"Ki"));
    assert_eq!(cv, CvQualifiers { restrict: false, volatile: false, const_: true });
    assert_eq!(rest.position(), 1);
    // out of order: only what comes in order is taken
    let (cv, rest) = lex::parse_cv_qualifiers(IndexStr::new(b"KV"));
    assert_eq!(cv, CvQualifiers { restrict: false, volatile: false, const_: true });
    assert_eq!(rest.position(), 1);
    let (cv, rest) = lex::parse_cv_qualifiers(IndexStr::new(b""));
    assert_eq!(cv, CvQualifiers { restrict: false, volatile: false, const_: false });
    assert_eq!(rest.position(), 0);
}

#[test]
fn substitution_codes() {
    let sub = |text: &'static [u8], count: usize| {
        lex::parse_substitution(IndexStr::new(text), count).map(|(s, rest)| (s, rest.position()))
    };
    assert_eq!(sub(b"S_", 1), Ok((Substitution::BackReference(0), 2)));
    assert_eq!(sub(b"S0_", 2), Ok((Substitution::BackReference(1), 3)));
    assert_eq!(sub(b"S9_", 11), Ok((Substitution::BackReference(10), 3)));
    assert_eq!(sub(b"SA_", 12), Ok((Substitution::BackReference(11), 3)));
    assert_eq!(sub(b"SZ_", 37), Ok((Substitution::BackReference(36), 3)));
    assert_eq!(sub(b"S10_", 38), Ok((Substitution::BackReference(37), 4)));
    assert_eq!(sub(b"St", 0), Ok((Substitution::WellKnown(WellKnownComponent(b't')), 2)));
    assert_eq!(sub(b"Sa", 0), Ok((Substitution::WellKnown(WellKnownComponent(b'a')), 2)));
    assert_eq!(sub(b"S_", 0), Err(Error::InvalidBackReference));
    assert_eq!(sub(b"S0_", 1), Err(Error::InvalidBackReference));
    assert_eq!(sub(b"S10_", 37), Err(Error::InvalidBackReference));
    assert_eq!(sub(b"S", 5), Err(Error::UnexpectedEnd));
    assert_eq!(sub(b"S1", 5), Err(Error::UnexpectedEnd));
    assert_eq!(sub(b"S1x", 5), Err(Error::UnexpectedToken));
    assert_eq!(sub(b"Sx", 5), Err(Error::UnexpectedToken));
    assert_eq!(sub(b"T_", 5), Err(Error::UnexpectedToken));
    assert_eq!(sub(b"", 5), Err(Error::UnexpectedEnd));
}

#[test]
fn template_parameters() {
    let param = |text: &'static [u8]| {
        lex::parse_template_param(IndexStr::new(text)).map(|(p, rest)| (p, rest.position()))
    };
    assert_eq!(param(b"T_"), Ok((TemplateParam(0), 2)));
    assert_eq!(param(b"T0_"), Ok((TemplateParam(1), 3)));
    assert_eq!(param(b"T12_"), Ok((TemplateParam(13), 4)));
    assert_eq!(param(b"T"), Err(Error::UnexpectedEnd));
    assert_eq!(param(b"T1"), Err(Error::UnexpectedEnd));
    assert_eq!(param(b"Tx"), Err(Error::UnexpectedToken));
    assert_eq!(param(b"T1x"), Err(Error::UnexpectedToken));
    assert_eq!(param(b"T18446744073709551615_"), Err(Error::UnexpectedToken));
    assert_eq!(param(b"T18446744073709551614_"), Ok((TemplateParam(usize::MAX), 22)));
}
