use cpp_demangle::error::Error;
use cpp_demangle::grammar::ParseOptions;
use cpp_demangle::{BorrowedSymbol, OwnedSymbol, Symbol};

fn demangle(mangled: &[u8]) -> String {
    let symbol = Symbol::new(mangled).expect("the name parses");
    symbol.to_text().expect("the name renders")
}

fn parse_error(mangled: &[u8]) -> Error {
    match Symbol::new(mangled) {
        Ok(symbol) => panic!("parsed as {:?}", symbol),
        Err(e) => e,
    }
}

#[test]
fn function_in_namespace() {
    assert_eq!(demangle(b"_ZN5space3fooEii"), "space::foo(int, int)");
}

#[test]
fn function_with_three_parameters() {
    assert_eq!(demangle(b"_ZN5space3fooEibc"), "space::foo(int, bool, char)");
}

#[test]
fn tail_is_handed_back() {
    let mangled = b"_ZN5space3fooEibc and some trailing junk";
    let (symbol, tail) = BorrowedSymbol::with_tail(&mangled[..]).expect("the name parses");
    assert_eq!(tail, b" and some trailing junk");
    assert_eq!(symbol.to_text().unwrap(), "space::foo(int, bool, char)");
}

#[test]
fn whole_input_refuses_tail() {
    assert_eq!(
        parse_error(b"_ZN5space3fooEibc and some trailing junk"),
        Error::UnexpectedTrailingBytes
    );
}

#[test]
fn bare_prefix_ends_unexpectedly() {
    assert_eq!(parse_error(b"_Z"), Error::UnexpectedEnd);
}

#[test]
fn empty_input_ends_unexpectedly() {
    assert_eq!(parse_error(b""), Error::UnexpectedEnd);
    assert_eq!(parse_error(b"_"), Error::UnexpectedEnd);
}

#[test]
fn deep_pointer_chain_hits_the_limit() {
    let mut mangled = b"_Z1f".to_vec();
    for _ in 0..100_000 {
        mangled.push(b'P');
    }
    mangled.push(b'i');
    assert_eq!(
        OwnedSymbol::new(mangled).err(),
        Some(Error::RecursionLimitExceeded)
    );
}

#[test]
fn deep_chain_of_mixed_wrappers_hits_the_limit() {
    let mut mangled = b"_Z1f".to_vec();
    for i in 0..5_000 {
        match i % 4 {
            0 => mangled.push(b'P'),
            1 => mangled.push(b'R'),
            2 => mangled.extend_from_slice(b"A12_"),
            _ => mangled.push(b'O'),
        }
    }
    mangled.push(b'i');
    assert_eq!(
        OwnedSymbol::new(mangled).err(),
        Some(Error::RecursionLimitExceeded)
    );
}

#[test]
fn limit_is_configurable() {
    let tight = ParseOptions { max_depth: 3, leading_underscore: true, vendor_extensions: true };
    assert!(Symbol::new_with_options(&b"_Z1fPPi"[..], tight).is_ok());
    assert_eq!(
        Symbol::new_with_options(&b"_Z1fPPPi"[..], tight).err(),
        Some(Error::RecursionLimitExceeded)
    );
    assert_eq!(demangle(b"_Z1fPPPi"), "f(int***)");
}

#[test]
fn back_reference_into_empty_table() {
    assert_eq!(parse_error(b"_Z1fS_"), Error::InvalidBackReference);
}

#[test]
fn back_reference_to_entry_not_yet_made() {
    // `3Foo` is entry 0 and `P3Foo` entry 1 once it is complete; `S0_` asks
    // for entry 1 while the table holds one entry only.
    assert_eq!(parse_error(b"_Z1f3FooS0_"), Error::InvalidBackReference);
    assert_eq!(parse_error(b"_Z1fP3FooS1_"), Error::InvalidBackReference);
    assert_eq!(parse_error(b"_Z1f3FooSZZ_"), Error::InvalidBackReference);
    assert_eq!(demangle(b"_Z1fP3FooS0_"), "f(Foo*, Foo*)");
}

#[test]
fn huge_back_reference_is_refused() {
    assert_eq!(
        parse_error(b"_Z1f3FooSZZZZZZZZZZZZZZZZZZZZZZZZZZZZZZZZ_"),
        Error::InvalidBackReference
    );
}

#[test]
fn long_name_with_substitutions() {
    let mangled = b"__Z28JS_GetPropertyDescriptorByIdP9JSContextN2JS6HandleIP8JSObjectEENS2_I4jsidEENS1_13MutableHandleINS1_18PropertyDescriptorEEE";
    assert_eq!(
        demangle(mangled),
        "JS_GetPropertyDescriptorById(JSContext*, JS::Handle<JSObject*>, JS::Handle<jsid>, JS::MutableHandle<JS::PropertyDescriptor>)"
    );
}

#[test]
fn extra_underscore_is_an_option() {
    let strict = ParseOptions { max_depth: 128, leading_underscore: false, vendor_extensions: true };
    assert_eq!(
        Symbol::new_with_options(&b"__Z3foov"[..], strict).err(),
        Some(Error::UnexpectedToken)
    );
    assert_eq!(
        Symbol::new_with_options(&b"_Z3foov"[..], strict).unwrap().to_text().unwrap(),
        "foo()"
    );
    assert_eq!(demangle(b"__Z3foov"), "foo()");
}

#[test]
fn vendor_types_are_an_option() {
    let strict = ParseOptions { max_depth: 128, leading_underscore: true, vendor_extensions: false };
    assert_eq!(
        Symbol::new_with_options(&b"_Z3foou6__fp16"[..], strict).err(),
        Some(Error::UnexpectedToken)
    );
    assert_eq!(demangle(b"_Z3foou6__fp16"), "foo(__fp16)");
}

#[test]
fn default_options() {
    let options = ParseOptions::default();
    assert_eq!(options.max_depth, 128);
    assert!(options.leading_underscore);
    assert!(options.vendor_extensions);
}

#[test]
fn parsing_twice_gives_the_same_tree() {
    let mangled = b"_ZNSt6vectorIiSaIiEE9push_backERKi";
    let first = Symbol::new(&mangled[..]).unwrap();
    let second = Symbol::new(&mangled[..]).unwrap();
    assert_eq!(first, second);
    assert_eq!(first.parsed(), second.parsed());
    assert_eq!(first.substitutions(), second.substitutions());
}

#[test]
fn rendering_twice_gives_the_same_text() {
    let symbol = Symbol::new(&b"_ZN5space3fooEibc"[..]).unwrap();
    assert_eq!(symbol.render(), symbol.render());
    assert_eq!(symbol.to_text(), symbol.to_text());
    assert_eq!(symbol.render().unwrap(), b"space::foo(int, bool, char)");
}

#[test]
fn every_truncation_ends_unexpectedly_or_parses() {
    let names: [&[u8]; 6] = [
        b"_ZN5space3fooEibc",
        b"__Z28JS_GetPropertyDescriptorByIdP9JSContextN2JS6HandleIP8JSObjectEENS2_I4jsidEENS1_13MutableHandleINS1_18PropertyDescriptorEEE",
        b"_ZNSt6vectorIiSaIiEE9push_backERKi",
        b"_ZTv0_n24_N3Foo3barEv",
        b"_Z3fooILin5EEvPA10_M3BarFviE",
        b"_ZN3FoocvT_IiEEv",
    ];
    for name in names.iter() {
        assert!(Symbol::new(*name).is_ok());
        for cut in 0..name.len() {
            match Symbol::new(&name[..cut]) {
                Ok(_) => {}
                Err(e) => assert_eq!(e, Error::UnexpectedEnd, "cut at {}", cut),
            }
        }
    }
}

#[test]
fn matched_bytes_parse_to_the_same_tree() {
    let mangled = b"_ZN5space3fooEibc and some trailing junk";
    let (symbol, tail) = BorrowedSymbol::with_tail(&mangled[..]).unwrap();
    let matched = &mangled[..mangled.len() - tail.len()];
    let again = Symbol::new(matched).unwrap();
    assert_eq!(symbol.parsed(), again.parsed());
    assert_eq!(symbol.substitutions(), again.substitutions());
}

#[test]
fn symbol_keeps_its_raw_bytes() {
    let symbol = OwnedSymbol::new(b"_Z3foov".to_vec()).unwrap();
    assert_eq!(symbol.raw(), b"_Z3foov");
    assert_eq!(symbol.to_text().unwrap(), "foo()");
}

#[test]
fn error_descriptions() {
    assert_eq!(Error::UnexpectedEnd.description(), "mangled symbol ends abruptly");
    assert_eq!(Error::UnexpectedToken.description(), "mangled symbol is not well-formed");
    assert_eq!(
        Error::InvalidBackReference.description(),
        "back reference that is out-of-bounds of the substitution table"
    );
    assert_eq!(
        Error::RecursionLimitExceeded.description(),
        "encountered too much recursion when demangling symbol"
    );
    assert_eq!(
        Error::UnexpectedTrailingBytes.description(),
        "unexpected bytes after the mangled symbol"
    );
    assert_eq!(
        Error::FormattingError.description(),
        "the parsed symbol is inconsistent and cannot be rendered"
    );
}

#[test]
fn clones_keep_their_suffix() {
    assert_eq!(demangle(b"_Z3foov.isra.0"), "foo() [clone .isra.0]");
    assert_eq!(demangle(b"_Z3fooi.constprop.12"), "foo(int) [clone .constprop.12]");
    assert_eq!(demangle(b"_ZN1a1bE.cold"), "a::b [clone .cold]");
    assert_eq!(demangle(b"_Z3foov."), "foo() [clone .]");
    assert_eq!(demangle(b"_Z3foov.part.0.cold"), "foo() [clone .part.0.cold]");
    let symbol = Symbol::new(&b"_Z3foov.isra.0"[..]).unwrap();
    assert_eq!(
        symbol.parsed().clone_suffix,
        Some(cpp_demangle::ast::Span { start: 7, end: 14 })
    );
    assert_eq!(Symbol::new(&b"_Z3foov"[..]).unwrap().parsed().clone_suffix, None);
}

#[test]
fn suffix_of_a_clone_ends_where_its_bytes_end() {
    let (symbol, tail) = BorrowedSymbol::with_tail(&b"_Z3foov.isra.0 and more"[..]).unwrap();
    assert_eq!(tail, b" and more");
    assert_eq!(symbol.to_text().unwrap(), "foo() [clone .isra.0]");
    assert_eq!(
        parse_error(b"_Z3foov.isra.0 and more"),
        Error::UnexpectedTrailingBytes
    );
    let name = b"_Z3fooPKc.constprop.3";
    for cut in 0..name.len() {
        match Symbol::new(&name[..cut]) {
            Ok(_) => {}
            Err(e) => assert_eq!(e, Error::UnexpectedEnd, "cut at {}", cut),
        }
    }
}
