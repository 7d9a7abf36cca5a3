use cpp_demangle::error::Error;
use cpp_demangle::Symbol;

fn demangle(mangled: &[u8]) -> String {
    let symbol = Symbol::new(mangled).expect("the name parses");
    symbol.to_text().expect("the name renders")
}

#[test]
fn data_and_functions() {
    assert_eq!(demangle(b"_Z3foo"), "foo");
    assert_eq!(demangle(b"_Z3foov"), "foo()");
    assert_eq!(demangle(b"_Z3fooz"), "foo(...)");
    assert_eq!(demangle(b"_Z3fooiz"), "foo(int, ...)");
    assert_eq!(demangle(b"_ZN3foo3barE"), "foo::bar");
}

#[test]
fn builtin_types() {
    assert_eq!(
        demangle(b"_Z1fwbcahstijlmxynofdeg"),
        "f(wchar_t, bool, char, signed char, unsigned char, short, unsigned short, int, \
         unsigned int, long, unsigned long, long long, unsigned long long, __int128, \
         unsigned __int128, float, double, long double, __float128)"
    );
    assert_eq!(
        demangle(b"_Z1fDdDeDfDhDiDsDaDcDn"),
        "f(decimal64, decimal128, decimal32, half, char32_t, char16_t, auto, decltype(auto), \
         decltype(nullptr))"
    );
}

#[test]
fn pointers_and_references() {
    assert_eq!(demangle(b"_Z3fooPi"), "foo(int*)");
    assert_eq!(demangle(b"_Z3fooRi"), "foo(int&)");
    assert_eq!(demangle(b"_Z3fooOi"), "foo(int&&)");
    assert_eq!(demangle(b"_Z3fooPPRi"), "foo(int&**)");
}

#[test]
fn qualifiers_follow_the_type() {
    assert_eq!(demangle(b"_Z3fooPKc"), "foo(char const*)");
    assert_eq!(demangle(b"_Z3fooKPc"), "foo(char* const)");
    assert_eq!(demangle(b"_Z3fooPVi"), "foo(int volatile*)");
    assert_eq!(demangle(b"_Z3foorVKi"), "foo(int const volatile restrict)");
}

#[test]
fn arrays_bind_tighter_than_pointers() {
    assert_eq!(demangle(b"_Z3fooPA10_i"), "foo(int (*) [10])");
    assert_eq!(demangle(b"_Z3fooRA10_i"), "foo(int (&) [10])");
    assert_eq!(demangle(b"_Z3fooPA_i"), "foo(int (*) [])");
    assert_eq!(demangle(b"_Z3fooPA3_A4_i"), "foo(int (*) [3] [4])");
    assert_eq!(demangle(b"_Z3fooA10_Pi"), "foo(int* [10])");
}

#[test]
fn functions_bind_tighter_than_pointers() {
    assert_eq!(demangle(b"_Z3fooPFivE"), "foo(int (*)())");
    assert_eq!(demangle(b"_Z3fooPFvicE"), "foo(void (*)(int, char))");
    assert_eq!(demangle(b"_Z3fooRFviE"), "foo(void (&)(int))");
    assert_eq!(demangle(b"_Z3fooPFYviE"), "foo(void (*)(int))");
    assert_eq!(demangle(b"_Z3fooPFPFivEcE"), "foo(int (*(*)(char))())");
    assert_eq!(demangle(b"_Z3fooPKPFivE"), "foo(int (* const*)())");
}

#[test]
fn function_type_as_template_argument() {
    assert_eq!(demangle(b"_Z3fooIFivEEvv"), "void foo<int ()>()");
    assert_eq!(demangle(b"_Z3fooIFviEEvv"), "void foo<void (int)>()");
}

#[test]
fn pointers_to_members() {
    assert_eq!(demangle(b"_Z3fooM3Bari"), "foo(int Bar::*)");
    assert_eq!(demangle(b"_Z3fooM3BarFviE"), "foo(void (Bar::*)(int))");
    assert_eq!(demangle(b"_Z3fooPM3Bari"), "foo(int Bar::**)");
}

#[test]
fn member_functions_carry_their_qualifiers() {
    assert_eq!(demangle(b"_ZNK3Foo3barEv"), "Foo::bar() const");
    assert_eq!(demangle(b"_ZNVK3Foo3barEi"), "Foo::bar(int) const volatile");
    assert_eq!(demangle(b"_ZNKR3Foo3barEv"), "Foo::bar() const &");
    assert_eq!(demangle(b"_ZNO3Foo3barEv"), "Foo::bar() &&");
}

#[test]
fn constructors_and_destructors() {
    assert_eq!(demangle(b"_ZN3FooC1Ev"), "Foo::Foo()");
    assert_eq!(demangle(b"_ZN3FooC2Ei"), "Foo::Foo(int)");
    assert_eq!(demangle(b"_ZN3FooD0Ev"), "Foo::~Foo()");
    assert_eq!(demangle(b"_ZN3FooD1Ev"), "Foo::~Foo()");
    assert_eq!(demangle(b"_ZN5space3FooC1ERKS0_"), "space::Foo::Foo(space::Foo const&)");
    assert_eq!(demangle(b"_ZN3FooIiEC1Ev"), "Foo<int>::Foo()");
    assert_eq!(demangle(b"_ZNSsC1Ev"), "std::string::string()");
    assert_eq!(demangle(b"_ZNSaIcED1Ev"), "std::allocator<char>::~allocator()");
}

#[test]
fn operators() {
    assert_eq!(demangle(b"_ZN3FoopLERKS_"), "Foo::operator+=(Foo const&)");
    assert_eq!(demangle(b"_ZN3FooixEi"), "Foo::operator[](int)");
    assert_eq!(demangle(b"_ZN3FooclEv"), "Foo::operator()()");
    assert_eq!(demangle(b"_ZN3FooeqERKS_"), "Foo::operator==(Foo const&)");
    assert_eq!(demangle(b"_Znwm"), "operator new(unsigned long)");
    assert_eq!(demangle(b"_ZdaPv"), "operator delete[](void*)");
    assert_eq!(demangle(b"_Zls3FooS_"), "operator<<(Foo, Foo)");
    assert_eq!(demangle(b"_ZN3FoocviEv"), "Foo::operator int()");
    assert_eq!(demangle(b"_ZN3FoocvPKcEv"), "Foo::operator char const*()");
    assert_eq!(demangle(b"_Zli2kmy"), "operator\"\" km(unsigned long long)");
}

#[test]
fn every_operator_code() {
    let table: [(&[u8], &str); 47] = [
        (b"nw", "operator new"), (b"na", "operator new[]"), (b"dl", "operator delete"),
        (b"da", "operator delete[]"), (b"ps", "operator+"), (b"ng", "operator-"),
        (b"ad", "operator&"), (b"de", "operator*"), (b"co", "operator~"), (b"pl", "operator+"),
        (b"mi", "operator-"), (b"ml", "operator*"), (b"dv", "operator/"), (b"rm", "operator%"),
        (b"an", "operator&"), (b"or", "operator|"), (b"eo", "operator^"), (b"aS", "operator="),
        (b"pL", "operator+="), (b"mI", "operator-="), (b"mL", "operator*="),
        (b"dV", "operator/="), (b"rM", "operator%="), (b"aN", "operator&="),
        (b"oR", "operator|="), (b"eO", "operator^="), (b"ls", "operator<<"),
        (b"rs", "operator>>"), (b"lS", "operator<<="), (b"rS", "operator>>="),
        (b"eq", "operator=="), (b"ne", "operator!="), (b"lt", "operator<"), (b"gt", "operator>"),
        (b"le", "operator<="), (b"ge", "operator>="), (b"nt", "operator!"), (b"aa", "operator&&"),
        (b"oo", "operator||"), (b"pp", "operator++"), (b"mm", "operator--"), (b"cm", "operator,"),
        (b"pm", "operator->*"), (b"pt", "operator->"), (b"cl", "operator()"),
        (b"ix", "operator[]"), (b"qu", "operator?"),
    ];
    for (code, text) in table.iter() {
        let mut mangled = b"_ZN3Foo".to_vec();
        mangled.extend_from_slice(code);
        mangled.extend_from_slice(b"Ev");
        assert_eq!(demangle(&mangled), format!("Foo::{}()", text));
    }
    assert_eq!(Symbol::new(&b"_ZN3FooxxEv"[..]).err(), Some(Error::UnexpectedToken));
}

#[test]
fn names_in_std() {
    assert_eq!(demangle(b"_ZSt4cout"), "std::cout");
    assert_eq!(demangle(b"_ZSt4swapIiEvRT_S1_"), "void std::swap<int>(int&, int&)");
    assert_eq!(demangle(b"_ZNSt3foo3barE"), "std::foo::bar");
    assert_eq!(demangle(b"_Z1fSsSaIcESiSoSdSbIcE"),
        "f(std::string, std::allocator<char>, std::istream, std::ostream, std::iostream, \
         std::basic_string<char>)");
    assert_eq!(
        demangle(b"_ZNSt6vectorIiSaIiEE9push_backERKi"),
        "std::vector<int, std::allocator<int> >::push_back(int const&)"
    );
    assert_eq!(demangle(b"_Z1fSt6vectorIiE"), "f(std::vector<int>)");
}

#[test]
fn templates() {
    assert_eq!(demangle(b"_Z3fooIiEvT_"), "void foo<int>(int)");
    assert_eq!(demangle(b"_Z3fooIicEvT0_T_"), "void foo<int, char>(char, int)");
    assert_eq!(demangle(b"_Z3fooIiET_S0_"), "int foo<int>(int)");
    assert_eq!(demangle(b"_ZN3FooIiE3barEv"), "Foo<int>::bar()");
    assert_eq!(demangle(b"_ZN3Foo3barIiEEvT_"), "void Foo::bar<int>(int)");
    assert_eq!(demangle(b"_Z1f3FooIiE"), "f(Foo<int>)");
}

#[test]
fn closing_angles_stay_apart() {
    assert_eq!(demangle(b"_Z3fooI3barIiEEvv"), "void foo<bar<int> >()");
    assert_eq!(demangle(b"_Z1f1aI1bI1cIiEEE"), "f(a<b<c<int> > >)");
    assert_eq!(demangle(b"_Z1f1aI1bIiEcE"), "f(a<b<int>, char>)");
}

#[test]
fn template_literals() {
    assert_eq!(demangle(b"_Z3fooILi5EEvv"), "void foo<5>()");
    assert_eq!(demangle(b"_Z3fooILin5EEvv"), "void foo<-5>()");
    assert_eq!(demangle(b"_Z3fooILb1EEvv"), "void foo<true>()");
    assert_eq!(demangle(b"_Z3fooILb0EEvv"), "void foo<false>()");
    assert_eq!(demangle(b"_Z3fooILj5EEvv"), "void foo<(unsigned int)5>()");
    assert_eq!(demangle(b"_Z3fooIL3Bar2EEvv"), "void foo<(Bar)2>()");
}

#[test]
fn template_parameters_without_a_template() {
    let symbol = Symbol::new(&b"_Z3fooT_"[..]).unwrap();
    assert_eq!(symbol.to_text().err(), Some(Error::FormattingError));
    let symbol = Symbol::new(&b"_Z3fooIiEvT0_"[..]).unwrap();
    assert_eq!(symbol.to_text().err(), Some(Error::FormattingError));
}

#[test]
fn template_template_parameters() {
    assert_eq!(demangle(b"_Z3fooI3BarEvT_IiE"), "void foo<Bar>(Bar<int>)");
}

#[test]
fn pack_expansions() {
    assert_eq!(demangle(b"_Z3fooIiEvDpT_"), "void foo<int>(int...)");
}

#[test]
fn special_names() {
    assert_eq!(demangle(b"_ZTV3Foo"), "vtable for Foo");
    assert_eq!(demangle(b"_ZTT3Foo"), "VTT for Foo");
    assert_eq!(demangle(b"_ZTI3Foo"), "typeinfo for Foo");
    assert_eq!(demangle(b"_ZTS3Foo"), "typeinfo name for Foo");
    assert_eq!(demangle(b"_ZTIPKc"), "typeinfo for char const*");
    assert_eq!(demangle(b"_ZTVN5space3FooIiEE"), "vtable for space::Foo<int>");
    assert_eq!(demangle(b"_ZGVN3foo3barE"), "guard variable for foo::bar");
    assert_eq!(demangle(b"_ZThn8_N3Foo3barEv"), "non-virtual thunk to Foo::bar()");
    assert_eq!(demangle(b"_ZTv0_n24_N3Foo3barEi"), "virtual thunk to Foo::bar(int)");
}

#[test]
fn substitutions_reach_back() {
    assert_eq!(demangle(b"_Z1f3FooS_"), "f(Foo, Foo)");
    assert_eq!(demangle(b"_Z1fP3FooS0_S_"), "f(Foo*, Foo*, Foo)");
    assert_eq!(demangle(b"_ZN1a1b1cES0_"), "a::b::c(a::b)");
    assert_eq!(
        demangle(b"_Z1fPPPPPPPPPPPP1AS_S0_S1_S2_S3_S4_S5_S6_S7_S8_S9_SA_SB_"),
        "f(A************, A, A*, A**, A***, A****, A*****, A******, A*******, A********, \
         A*********, A**********, A***********, A************)"
    );
}

#[test]
fn identifiers_that_are_not_utf8() {
    let mangled: &[u8] = b"_Z2\xff\xfev";
    let symbol = Symbol::new(mangled).unwrap();
    assert_eq!(symbol.render().unwrap(), b"\xff\xfe()");
    assert_eq!(symbol.to_text().unwrap(), "\u{fffd}\u{fffd}()");
    assert_eq!(demangle("_Z5caf\u{e9}v".as_bytes()), "caf\u{e9}()");
}

#[test]
fn long_chain_of_handles_runs_out_of_fuel() {
    // Each `PS<n>_` is a pointer to the entry before it: the parse never
    // nests, and the last type is two hundred pointers deep when rendered.
    let mut mangled = b"_Z1fPiPS_".to_vec();
    const DIGITS: &[u8] = b"0123456789ABCDEFGHIJKLMNOPQRSTUVWXYZ";
    for n in 0..200usize {
        mangled.extend_from_slice(b"PS");
        if n >= 36 {
            mangled.push(DIGITS[n / 36]);
        }
        mangled.push(DIGITS[n % 36]);
        mangled.push(b'_');
    }
    let symbol = Symbol::new(&mangled[..]).unwrap();
    assert_eq!(symbol.to_text().err(), Some(Error::RecursionLimitExceeded));
    assert_eq!(symbol.render_with_limit(201), Err(Error::RecursionLimitExceeded));
    let text = symbol.render_with_limit(202).unwrap();
    assert!(text.ends_with(b"*)"));
    assert_eq!(text.iter().filter(|b| **b == b'*').count(), (1..=202).sum::<usize>());
}

#[test]
fn complex_and_imaginary_types() {
    assert_eq!(demangle(b"_Z1fCf"), "f(float _Complex)");
    assert_eq!(demangle(b"_Z1fGd"), "f(double _Imaginary)");
    assert_eq!(demangle(b"_Z1fPCf"), "f(float _Complex*)");
    assert_eq!(demangle(b"_Z1fCfS_"), "f(float _Complex, float _Complex)");
}

#[test]
fn vendor_qualifiers() {
    assert_eq!(demangle(b"_Z1fU8__vectori"), "f(int __vector)");
    assert_eq!(demangle(b"_Z1fPU3gc1c"), "f(char gc1*)");
    let strict = cpp_demangle::grammar::ParseOptions {
        max_depth: 128,
        leading_underscore: true,
        vendor_extensions: false,
    };
    assert_eq!(
        Symbol::new_with_options(&b"_Z1fU8__vectori"[..], strict).err(),
        Some(Error::UnexpectedToken)
    );
}

#[test]
fn more_special_names() {
    assert_eq!(demangle(b"_ZTch0_h4_N3Foo3barEv"), "covariant return thunk to Foo::bar()");
    assert_eq!(
        demangle(b"_ZTcv0_n12_v0_n24_N3Foo3barEi"),
        "covariant return thunk to Foo::bar(int)"
    );
    assert_eq!(demangle(b"_ZTC3Foo8_3Bar"), "construction vtable for Bar-in-Foo");
    assert_eq!(
        demangle(b"_ZTCN1a1bE16_NS_1cE"),
        "construction vtable for a::c-in-a::b"
    );
    assert_eq!(Symbol::new(&b"_ZTC3Foo_3Bar"[..]).err(), Some(Error::UnexpectedToken));
    assert_eq!(Symbol::new(&b"_ZTC3Foo8_"[..]).err(), Some(Error::UnexpectedEnd));
    assert_eq!(Symbol::new(&b"_ZTch0_"[..]).err(), Some(Error::UnexpectedEnd));
    assert_eq!(Symbol::new(&b"_ZTx3Foo"[..]).err(), Some(Error::UnexpectedToken));
    assert_eq!(Symbol::new(&b"_ZGx3Foo"[..]).err(), Some(Error::UnexpectedToken));
}

#[test]
fn cut_special_names_end_unexpectedly() {
    let names: [&[u8]; 6] = [
        b"_ZTcv0_n12_v0_n24_N3Foo3barEi",
        b"_ZTCN1a1bE16_NS_1cE",
        b"_ZThn8_N3Foo3barEv",
        b"_ZGVN3foo3barE",
        b"_ZTIPKU8__vectorCf",
        b"_ZTVNSt6vectorIiSaIiEEE",
    ];
    for name in names.iter() {
        assert!(Symbol::new(*name).is_ok());
        for cut in 0..name.len() {
            match Symbol::new(&name[..cut]) {
                Ok(_) => {}
                Err(e) => assert_eq!(e, Error::UnexpectedEnd, "cut at {}", cut),
            }
        }
    }
}

#[test]
fn unnamed_types() {
    assert_eq!(demangle(b"_ZN3FooUt_E"), "Foo::{unnamed type#1}");
    assert_eq!(demangle(b"_ZN3FooUt0_E"), "Foo::{unnamed type#2}");
    assert_eq!(demangle(b"_ZN3FooUt10_E"), "Foo::{unnamed type#12}");
    assert_eq!(demangle(b"_ZN3FooUt98_3barE"), "Foo::{unnamed type#100}::bar");
    assert_eq!(demangle(b"_Z1fN3FooUt_E"), "f(Foo::{unnamed type#1})");
    assert_eq!(demangle(b"_ZUt_"), "{unnamed type#1}");
    assert_eq!(
        demangle(b"_ZN3FooUt18446744073709551615_E"),
        "Foo::{unnamed type#18446744073709551617}"
    );
    assert_eq!(Symbol::new(&b"_ZN3FooUtE"[..]).err(), Some(Error::UnexpectedToken));
    assert_eq!(Symbol::new(&b"_ZN3FooUxE"[..]).err(), Some(Error::UnexpectedToken));
    assert_eq!(Symbol::new(&b"_ZN3FooUt1E"[..]).err(), Some(Error::UnexpectedToken));
    assert_eq!(Symbol::new(&b"_ZN3FooUt1"[..]).err(), Some(Error::UnexpectedEnd));
    assert_eq!(
        Symbol::new(&b"_ZN3FooUt18446744073709551616_E"[..]).err(),
        Some(Error::UnexpectedToken)
    );
}

#[test]
fn closures() {
    assert_eq!(demangle(b"_ZN3FooUlvE_clEv"), "Foo::{lambda()#1}::operator()()");
    assert_eq!(
        demangle(b"_ZNK3FooUliE0_clEi"),
        "Foo::{lambda(int)#2}::operator()(int) const"
    );
    assert_eq!(
        demangle(b"_ZN1a1bUlPKcRiE8_clES2_S3_"),
        "a::b::{lambda(char const*, int&)#10}::operator()(char const*, int&)"
    );
    assert_eq!(demangle(b"_ZNUlvE_clEv"), "{lambda()#1}::operator()()");
    assert_eq!(demangle(b"_Z1fN3FooUlvE_E"), "f(Foo::{lambda()#1})");
    assert_eq!(demangle(b"_Z1fIN3FooUlvE_EEvT_"), "void f<Foo::{lambda()#1}>(Foo::{lambda()#1})");
    assert_eq!(Symbol::new(&b"_ZN3FooUlE_clEv"[..]).err(), Some(Error::UnexpectedToken));
    assert_eq!(Symbol::new(&b"_ZN3FooUlv_clEv"[..]).err(), Some(Error::UnexpectedToken));
    assert_eq!(Symbol::new(&b"_ZN3FooUlvEclEv"[..]).err(), Some(Error::UnexpectedToken));
    assert_eq!(Symbol::new(&b"_ZN3FooUl"[..]).err(), Some(Error::UnexpectedEnd));
}

#[test]
fn cut_closures_end_unexpectedly() {
    let names: [&[u8]; 4] = [
        b"_ZN1a1bUlPKcRiE8_clES2_S3_",
        b"_ZN3FooUt98_3barE",
        b"_ZNUlvE_clEv",
        b"_Z1fIN3FooUlvE_EEvT_",
    ];
    for name in names.iter() {
        assert!(Symbol::new(*name).is_ok());
        for cut in 0..name.len() {
            match Symbol::new(&name[..cut]) {
                Ok(_) => {}
                Err(e) => assert_eq!(e, Error::UnexpectedEnd, "cut at {}", cut),
            }
        }
    }
}

#[test]
fn nesting_of_closures_is_limited() {
    let mut deep = b"_Z".to_vec();
    for _ in 0..20_000 {
        deep.extend_from_slice(b"NUl");
    }
    assert_eq!(Symbol::new(deep).err(), Some(Error::RecursionLimitExceeded));
}

#[test]
fn local_names() {
    assert_eq!(demangle(b"_ZZ3foovE3bar"), "foo()::bar");
    assert_eq!(demangle(b"_ZZ4mainE3bar"), "main::bar");
    assert_eq!(demangle(b"_ZZ3fooiPKcE3bar"), "foo(int, char const*)::bar");
    assert_eq!(demangle(b"_ZZN1a1bEvE1c"), "a::b()::c");
    assert_eq!(demangle(b"_ZZ3foovEN3Bar3bazE"), "foo()::Bar::baz");
    assert_eq!(demangle(b"_ZZ3foovEN3Bar3bazEi"), "foo()::Bar::baz(int)");
    assert_eq!(demangle(b"_ZZZ3foovE3barvE3baz"), "foo()::bar()::baz");
    assert_eq!(demangle(b"_Z1fZ3foovE3Bar"), "f(foo()::Bar)");
    assert_eq!(demangle(b"_Z1fPZ3foovE3BarS0_"), "f(foo()::Bar*, foo()::Bar*)");
    assert_eq!(demangle(b"_ZZ3fooIiEvT_E3bar"), "void foo<int>(int)::bar");
    assert_eq!(demangle(b"_ZGVZ3foovE3bar"), "guard variable for foo()::bar");
    assert_eq!(demangle(b"_ZTVZ3foovE3Bar"), "vtable for foo()::Bar");
}

#[test]
fn local_string_literals_and_discriminators() {
    assert_eq!(demangle(b"_ZZ3foovEs"), "foo()::string literal");
    assert_eq!(demangle(b"_ZZ3foovEs_0"), "foo()::string literal");
    assert_eq!(demangle(b"_ZZ3foovE3bar_0"), "foo()::bar");
    assert_eq!(demangle(b"_ZZ3foovE3bar_9"), "foo()::bar");
    assert_eq!(demangle(b"_ZZ3foovE3bar__12_"), "foo()::bar");
    let symbol = Symbol::new(&b"_ZZ3foovE3bar__12_"[..]).unwrap();
    match &symbol.parsed().encoding {
        cpp_demangle::ast::Encoding::Data(cpp_demangle::ast::Name::Local(local)) => {
            assert_eq!(local.discriminator, Some(12));
            assert!(local.scope_types.is_some());
        }
        other => panic!("parsed as {:?}", other),
    }
    assert_eq!(Symbol::new(&b"_ZZ3foovE3bar_"[..]).err(), Some(Error::UnexpectedEnd));
    assert_eq!(Symbol::new(&b"_ZZ3foovE3bar__"[..]).err(), Some(Error::UnexpectedEnd));
    assert_eq!(Symbol::new(&b"_ZZ3foovE3bar__1"[..]).err(), Some(Error::UnexpectedEnd));
    assert_eq!(Symbol::new(&b"_ZZ3foovE3bar__x"[..]).err(), Some(Error::UnexpectedToken));
    assert_eq!(Symbol::new(&b"_ZZ3foovE3bar_x"[..]).err(), Some(Error::UnexpectedToken));
    assert_eq!(Symbol::new(&b"_ZZ3foovE3bar__1x"[..]).err(), Some(Error::UnexpectedToken));
}

#[test]
fn closures_inside_functions() {
    assert_eq!(
        demangle(b"_ZZ4mainENKUlvE_clEv"),
        "main::{lambda()#1}::operator()() const"
    );
    assert_eq!(
        demangle(b"_ZZ3fooiENKUliE0_clEi"),
        "foo(int)::{lambda(int)#2}::operator()(int) const"
    );
    assert_eq!(demangle(b"_ZZ4mainEUlvE_"), "main::{lambda()#1}");
    assert_eq!(
        demangle(b"_Z1fIZ4mainEUliE_EvT_"),
        "void f<main::{lambda(int)#1}>(main::{lambda(int)#1})"
    );
    assert_eq!(demangle(b"_ZZ4mainEUt_"), "main::{unnamed type#1}");
    assert_eq!(demangle(b"_ZZ4mainENUt0_3fooE"), "main::{unnamed type#2}::foo");
}

#[test]
fn malformed_local_names() {
    assert_eq!(Symbol::new(&b"_ZZ"[..]).err(), Some(Error::UnexpectedEnd));
    assert_eq!(Symbol::new(&b"_ZZ3foov"[..]).err(), Some(Error::UnexpectedEnd));
    assert_eq!(Symbol::new(&b"_ZZ3foovE"[..]).err(), Some(Error::UnexpectedEnd));
    assert_eq!(Symbol::new(&b"_ZZ3foovEU"[..]).err(), Some(Error::UnexpectedEnd));
    assert_eq!(Symbol::new(&b"_ZZ3foovX3bar"[..]).err(), Some(Error::UnexpectedToken));
    assert_eq!(Symbol::new(&b"_ZZ3foovE!"[..]).err(), Some(Error::UnexpectedToken));
    assert_eq!(Symbol::new(&b"_ZZ3foovEUx"[..]).err(), Some(Error::UnexpectedToken));
    assert_eq!(Symbol::new(&b"_ZZS_E3bar"[..]).err(), Some(Error::InvalidBackReference));
}

#[test]
fn nesting_of_local_names_is_limited() {
    let mut deep = b"_Z".to_vec();
    for _ in 0..50_000 {
        deep.push(b'Z');
    }
    deep.extend_from_slice(b"3foov");
    assert_eq!(Symbol::new(deep).err(), Some(Error::RecursionLimitExceeded));
    let tight = cpp_demangle::grammar::ParseOptions {
        max_depth: 3,
        leading_underscore: true,
        vendor_extensions: true,
    };
    assert!(Symbol::new_with_options(&b"_ZZZ3foovE3barvE3baz"[..], tight).is_ok());
    assert_eq!(
        Symbol::new_with_options(&b"_ZZZZ1avE1bvE1cvE1d"[..], tight).err(),
        Some(Error::RecursionLimitExceeded)
    );
    // rendering a local name uses up fuel as following a handle does
    let symbol = Symbol::new(&b"_ZZZ3foovE3barvE3baz"[..]).unwrap();
    assert_eq!(symbol.render_with_limit(1), Err(Error::RecursionLimitExceeded));
    assert_eq!(symbol.render_with_limit(2).unwrap(), b"foo()::bar()::baz");
}

#[test]
fn cut_local_names_end_unexpectedly() {
    let names: [&[u8]; 7] = [
        b"_ZZ3fooiPKcE3bar",
        b"_ZZ4mainENKUlvE_clEv",
        b"_ZZ3foovE3bar__12_",
        b"_ZZ3foovEs_0",
        b"_Z1fIZ4mainEUliE_EvT_",
        b"_ZZZ3foovE3barvE3baz",
        b"_ZZ4mainENUt0_3fooE",
    ];
    for name in names.iter() {
        assert!(Symbol::new(*name).is_ok());
        for cut in 0..name.len() {
            match Symbol::new(&name[..cut]) {
                Ok(_) => {}
                Err(e) => assert_eq!(e, Error::UnexpectedEnd, "cut at {}", cut),
            }
        }
    }
}

#[test]
fn clones_of_names_are_equal() {
    let symbol = Symbol::new(&b"_ZZ4mainENKUlvE_clEv"[..]).unwrap();
    let copy = symbol.clone();
    assert_eq!(symbol, copy);
    assert_eq!(copy.to_text().unwrap(), "main::{lambda()#1}::operator()() const");
    let tree = symbol.parsed().clone();
    assert_eq!(&tree, symbol.parsed());
}
