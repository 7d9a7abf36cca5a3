//! The renderer: for each rule of [`crate::text`] a function that computes
//! the text, as bytes.

use vstd::prelude::*;
use vstd::slice::slice_subrange;
use crate::ast::{
    BuiltinType, CtorDtorName, CvQualifiers, Number, PrefixHandle, RefQualifier, Span,
    TemplateArgs, TypeHandle, WellKnownComponent,
};
use crate::error::Error;
use crate::subs::SubstitutionTable;
use crate::text;
use crate::text::{lit, Scope, Text};

pub mod encoding;
pub mod expression;
pub mod handle;
pub mod names;
pub mod template_args;
pub mod types;
pub mod unqualified;

verus! {

/// What a rendering reads: the substitution table, the raw input, and the
/// arguments of the template that the rendered node lies in.
#[derive(Clone, Copy, Debug)]
pub struct Renderer<'a> {
    pub subs: &'a SubstitutionTable,
    pub raw: &'a [u8],
    pub template_args: Option<&'a TemplateArgs>,
}

impl<'a> View for Renderer<'a> {
    type V = Scope;

    open spec fn view(&self) -> Scope {
        Scope {
            subs: self.subs@,
            raw: self.raw@,
            template_args: match self.template_args {
                Some(args) => Some(args@),
                None => None,
            },
        }
    }
}

impl<'a> Renderer<'a> {
    /// The same renderer outside any template.
    pub fn outside_template(&self) -> (r: Renderer<'a>)
        ensures
            r@ == self@.outside_template(),
    {
        Renderer { subs: self.subs, raw: self.raw, template_args: None }
    }

    /// The same renderer inside the template with the arguments `args`.
    pub fn inside_template(&self, args: Option<&'a TemplateArgs>) -> (r: Renderer<'a>)
        ensures
            r@ == self@.inside_template(
                match args {
                    Some(a) => Some(a@),
                    None => None,
                },
            ),
    {
        Renderer { subs: self.subs, raw: self.raw, template_args: args }
    }
}

/// What `r` holds, as a text.
pub open spec fn text_of(r: Result<Vec<u8>, Error>) -> Text {
    match r {
        Ok(v) => Ok(v@),
        Err(e) => Err(e),
    }
}

/// Whether `r` holds the text `want`, or the error that stands in its
/// place.
pub open spec fn rendered(r: Result<Vec<u8>, Error>, want: Text) -> bool {
    text_of(r) == want
}

/// Appends the bytes of `tail` to `out`.
pub fn append(out: &mut Vec<u8>, tail: &[u8])
    ensures
        final(out)@ == old(out)@ + tail@,
{
    let mut i: usize = 0;
    while i < tail.len()
        invariant
            i <= tail@.len(),
            out@ == old(out)@ + tail@.subrange(0, i as int),
        decreases tail@.len() - i,
    {
        out.push(tail[i]);
        i += 1;
        assert(out@ =~= old(out)@ + tail@.subrange(0, i as int));
    }
    assert(tail@.subrange(0, i as int) =~= tail@);
}

/// Appends the text `s` to `out`.
pub fn append_lit(out: &mut Vec<u8>, s: &str)
    ensures
        final(out)@ == old(out)@ + lit(s),
{
    append(out, s.as_bytes());
}

/// The text `s` as bytes of its own.
pub fn lit_bytes(s: &str) -> (out: Vec<u8>)
    ensures
        out@ == lit(s),
{
    let mut out: Vec<u8> = Vec::new();
    append_lit(&mut out, s);
    assert(out@ =~= lit(s));
    out
}

/// The text `s` and the bytes `tail` behind it.
pub fn lit_then(s: &str, tail: &[u8]) -> (out: Vec<u8>)
    ensures
        out@ == lit(s) + tail@,
{
    let mut out = lit_bytes(s);
    append(&mut out, tail);
    out
}

/// `head`, then `tail` where there is one.
pub fn then(head: Vec<u8>, tail: Result<Vec<u8>, Error>) -> (r: Result<Vec<u8>, Error>)
    ensures
        text_of(r) == text::before(head@, text_of(tail)),
{
    match tail {
        Err(e) => Err(e),
        Ok(t) => {
            let mut out = head;
            append(&mut out, t.as_slice());
            Ok(out)
        },
    }
}

/// `head` where there is one, then `tail`.
pub fn followed(head: Result<Vec<u8>, Error>, tail: &[u8]) -> (r: Result<Vec<u8>, Error>)
    ensures
        text_of(r) == text::behind(text_of(head), tail@),
{
    match head {
        Err(e) => Err(e),
        Ok(h) => {
            let mut out = h;
            append(&mut out, tail);
            Ok(out)
        },
    }
}

/// Whether `i` is among `active`.
pub fn is_active(active: &Vec<usize>, i: usize) -> (b: bool)
    ensures
        b == active@.contains(i),
{
    let mut k: usize = 0;
    while k < active.len()
        invariant
            k <= active@.len(),
            forall|j: int| 0 <= j < k ==> active@[j] != i,
        decreases active@.len() - k,
    {
        if active[k] == i {
            return true;
        }
        k += 1;
    }
    false
}

/// The name of a type of the language.
pub fn builtin_name(b: BuiltinType) -> (r: Option<&'static str>)
    ensures
        r == text::builtin_text(b),
{
    let c = b.code;
    if !b.extended {
        if c == 'v' as u8 {
            Some("void")
        } else if c == 'w' as u8 {
            Some("wchar_t")
        } else if c == 'b' as u8 {
            Some("bool")
        } else if c == 'c' as u8 {
            Some("char")
        } else if c == 'a' as u8 {
            Some("signed char")
        } else if c == 'h' as u8 {
            Some("unsigned char")
        } else if c == 's' as u8 {
            Some("short")
        } else if c == 't' as u8 {
            Some("unsigned short")
        } else if c == 'i' as u8 {
            Some("int")
        } else if c == 'j' as u8 {
            Some("unsigned int")
        } else if c == 'l' as u8 {
            Some("long")
        } else if c == 'm' as u8 {
            Some("unsigned long")
        } else if c == 'x' as u8 {
            Some("long long")
        } else if c == 'y' as u8 {
            Some("unsigned long long")
        } else if c == 'n' as u8 {
            Some("__int128")
        } else if c == 'o' as u8 {
            Some("unsigned __int128")
        } else if c == 'f' as u8 {
            Some("float")
        } else if c == 'd' as u8 {
            Some("double")
        } else if c == 'e' as u8 {
            Some("long double")
        } else if c == 'g' as u8 {
            Some("__float128")
        } else if c == 'z' as u8 {
            Some("...")
        } else {
            None
        }
    } else {
        if c == 'd' as u8 {
            Some("decimal64")
        } else if c == 'e' as u8 {
            Some("decimal128")
        } else if c == 'f' as u8 {
            Some("decimal32")
        } else if c == 'h' as u8 {
            Some("half")
        } else if c == 'i' as u8 {
            Some("char32_t")
        } else if c == 's' as u8 {
            Some("char16_t")
        } else if c == 'a' as u8 {
            Some("auto")
        } else if c == 'c' as u8 {
            Some("decltype(auto)")
        } else if c == 'n' as u8 {
            Some("decltype(nullptr)")
        } else {
            None
        }
    }
}

/// The name that an abbreviation stands for.
pub fn well_known_name(w: WellKnownComponent) -> (r: Option<&'static str>)
    ensures
        r == text::well_known_text(w),
{
    let c = w.0;
    if c == 't' as u8 {
        Some("std")
    } else if c == 'a' as u8 {
        Some("std::allocator")
    } else if c == 'b' as u8 {
        Some("std::basic_string")
    } else if c == 's' as u8 {
        Some("std::string")
    } else if c == 'i' as u8 {
        Some("std::istream")
    } else if c == 'o' as u8 {
        Some("std::ostream")
    } else if c == 'd' as u8 {
        Some("std::iostream")
    } else {
        None
    }
}

/// The name of the class that an abbreviation stands for, without its
/// scope.
pub fn well_known_leaf_name(w: WellKnownComponent) -> (r: Option<&'static str>)
    ensures
        r == text::well_known_leaf_text(w),
{
    let c = w.0;
    if c == 'a' as u8 {
        Some("allocator")
    } else if c == 'b' as u8 {
        Some("basic_string")
    } else if c == 's' as u8 {
        Some("string")
    } else if c == 'i' as u8 {
        Some("istream")
    } else if c == 'o' as u8 {
        Some("ostream")
    } else if c == 'd' as u8 {
        Some("iostream")
    } else {
        None
    }
}

/// The operator with the given code, as it is written in C++.
pub fn operator_symbol(a: u8, b: u8) -> (r: Option<&'static str>)
    ensures
        r == text::operator_symbol(a, b),
{
    if a == 'n' as u8 {
        if b == 'w' as u8 {
            Some("new")
        } else if b == 'a' as u8 {
            Some("new[]")
        } else if b == 'g' as u8 {
            Some("-")
        } else if b == 'e' as u8 {
            Some("!=")
        } else if b == 't' as u8 {
            Some("!")
        } else {
            None
        }
    } else if a == 'd' as u8 {
        if b == 'l' as u8 {
            Some("delete")
        } else if b == 'a' as u8 {
            Some("delete[]")
        } else if b == 'e' as u8 {
            Some("*")
        } else if b == 'v' as u8 {
            Some("/")
        } else if b == 'V' as u8 {
            Some("/=")
        } else {
            None
        }
    } else if a == 'p' as u8 {
        if b == 's' as u8 {
            Some("+")
        } else if b == 'l' as u8 {
            Some("+")
        } else if b == 'L' as u8 {
            Some("+=")
        } else if b == 'p' as u8 {
            Some("++")
        } else if b == 'm' as u8 {
            Some("->*")
        } else if b == 't' as u8 {
            Some("->")
        } else {
            None
        }
    } else if a == 'a' as u8 {
        if b == 'd' as u8 {
            Some("&")
        } else if b == 'n' as u8 {
            Some("&")
        } else if b == 'S' as u8 {
            Some("=")
        } else if b == 'N' as u8 {
            Some("&=")
        } else if b == 'a' as u8 {
            Some("&&")
        } else {
            None
        }
    } else if a == 'c' as u8 {
        if b == 'o' as u8 {
            Some("~")
        } else if b == 'm' as u8 {
            Some(",")
        } else if b == 'l' as u8 {
            Some("()")
        } else {
            None
        }
    } else if a == 'm' as u8 {
        if b == 'i' as u8 {
            Some("-")
        } else if b == 'l' as u8 {
            Some("*")
        } else if b == 'I' as u8 {
            Some("-=")
        } else if b == 'L' as u8 {
            Some("*=")
        } else if b == 'm' as u8 {
            Some("--")
        } else {
            None
        }
    } else if a == 'r' as u8 {
        if b == 'm' as u8 {
            Some("%")
        } else if b == 'M' as u8 {
            Some("%=")
        } else if b == 's' as u8 {
            Some(">>")
        } else if b == 'S' as u8 {
            Some(">>=")
        } else {
            None
        }
    } else if a == 'o' as u8 {
        if b == 'r' as u8 {
            Some("|")
        } else if b == 'R' as u8 {
            Some("|=")
        } else if b == 'o' as u8 {
            Some("||")
        } else {
            None
        }
    } else if a == 'e' as u8 {
        if b == 'o' as u8 {
            Some("^")
        } else if b == 'O' as u8 {
            Some("^=")
        } else if b == 'q' as u8 {
            Some("==")
        } else {
            None
        }
    } else if a == 'l' as u8 {
        if b == 's' as u8 {
            Some("<<")
        } else if b == 'S' as u8 {
            Some("<<=")
        } else if b == 't' as u8 {
            Some("<")
        } else if b == 'e' as u8 {
            Some("<=")
        } else {
            None
        }
    } else if a == 'g' as u8 {
        if b == 't' as u8 {
            Some(">")
        } else if b == 'e' as u8 {
            Some(">=")
        } else {
            None
        }
    } else if a == 'i' as u8 && b == 'x' as u8 {
        Some("[]")
    } else if a == 'q' as u8 && b == 'u' as u8 {
        Some("?")
    } else {
        None
    }
}

/// The name of the operator function with the given code.
pub fn operator_name(a: u8, b: u8) -> (r: Option<Vec<u8>>)
    ensures
        match text::operator_text(a, b) {
            Some(t) => r matches Some(v) && v@ == t,
            None => r is None,
        },
{
    match operator_symbol(a, b) {
        None => None,
        Some(symbol) => {
            let word = (a == 'n' as u8 && (b == 'w' as u8 || b == 'a' as u8)) || (a == 'd' as u8
                && (b == 'l' as u8 || b == 'a' as u8));
            let mut out = if word {
                lit_bytes("operator ")
            } else {
                lit_bytes("operator")
            };
            append_lit(&mut out, symbol);
            Some(out)
        },
    }
}

/// The bytes of the raw input that a span names.
pub fn span_bytes(raw: &[u8], s: Span) -> (r: Result<Vec<u8>, Error>)
    ensures
        rendered(r, text::span_text(raw@, s)),
{
    if s.start <= s.end && s.end <= raw.len() {
        let mut out: Vec<u8> = Vec::new();
        append(&mut out, slice_subrange(raw, s.start, s.end));
        assert(out@ =~= raw@.subrange(s.start as int, s.end as int));
        Ok(out)
    } else {
        Err(Error::FormattingError)
    }
}

/// A number as it is written in C++.
pub fn number_bytes(raw: &[u8], n: Number) -> (r: Result<Vec<u8>, Error>)
    ensures
        rendered(r, text::number_text(raw@, n)),
{
    if n.negative {
        then(lit_bytes("-"), span_bytes(raw, n.digits))
    } else {
        span_bytes(raw, n.digits)
    }
}

/// The qualifiers, each behind a space.
pub fn cv_bytes(cv: CvQualifiers) -> (out: Vec<u8>)
    ensures
        out@ == text::cv_text(cv),
{
    let mut out: Vec<u8> = Vec::new();
    if cv.const_ {
        append_lit(&mut out, " const");
    }
    if cv.volatile {
        append_lit(&mut out, " volatile");
    }
    if cv.restrict {
        append_lit(&mut out, " restrict");
    }
    assert(out@ =~= text::cv_text(cv));
    out
}

/// The `&` or `&&` behind a member function.
pub fn ref_qualifier_bytes(q: Option<RefQualifier>) -> (out: Vec<u8>)
    ensures
        out@ == text::ref_qualifier_text(q),
{
    match q {
        None => Vec::new(),
        Some(RefQualifier::LValueRef) => lit_bytes(" &"),
        Some(RefQualifier::RValueRef) => lit_bytes(" &&"),
    }
}

/// Appends the number `n` in decimal digits to `out`.
pub fn push_decimal(out: &mut Vec<u8>, n: u128)
    ensures
        final(out)@ == old(out)@ + text::decimal_text(n as nat),
    decreases n,
{
    if n >= 10 {
        push_decimal(out, n / 10);
    }
    out.push(('0' as u8) + (n % 10) as u8);
    assert(out@ =~= old(out)@ + text::decimal_text(n as nat));
}

/// Appends `#`, which of the unnamed types or closures of its scope the
/// one with the given number is, and `}` to `out`.
pub fn push_ordinal(out: &mut Vec<u8>, index: Option<usize>)
    ensures
        final(out)@ == old(out)@ + (lit("#") + text::decimal_text(text::ordinal(index)) + lit(
            "}",
        )),
{
    let ghost start = out@;
    append_lit(out, "#");
    match index {
        None => push_decimal(out, 1),
        Some(n) => push_decimal(out, n as u128 + 2),
    }
    append_lit(out, "}");
    assert(out@ =~= start + (lit("#") + text::decimal_text(text::ordinal(index)) + lit("}")));
}

/// The declarator `inner` as an array or a function type holds it.
pub fn wrapped(inner: &Vec<u8>) -> (out: Vec<u8>)
    ensures
        out@ == text::wrapped(inner@),
{
    let spaced = inner.len() > 0 && inner[0] == ' ' as u8;
    let first: usize = if spaced {
        1
    } else {
        0
    };
    let mut out: Vec<u8> = Vec::new();
    if first < inner.len() && inner[first] != '(' as u8 && inner[first] != '[' as u8 {
        append_lit(&mut out, "(");
        append(&mut out, slice_subrange(inner.as_slice(), first, inner.len()));
        append_lit(&mut out, ")");
        assert(inner@.subrange(first as int, inner@.len() as int) =~= text::strip_space(inner@));
        assert(out@ =~= text::wrapped(inner@));
    } else {
        append(&mut out, inner.as_slice());
        assert(out@ =~= text::wrapped(inner@));
    }
    out
}

/// The declarator `inner` behind the type `base`.
pub fn declared(base: Vec<u8>, inner: &[u8]) -> (out: Vec<u8>)
    ensures
        out@ == text::declared(base@, inner@),
{
    let mut out = base;
    if inner.len() > 0 && inner[0] == '(' as u8 {
        append_lit(&mut out, " ");
    }
    append(&mut out, inner);
    out
}

/// The declarator `inner` behind the text `base`, where there is one.
pub fn around(base: Result<Vec<u8>, Error>, inner: &[u8]) -> (r: Result<Vec<u8>, Error>)
    ensures
        text_of(r) == text::around(text_of(base), inner@),
{
    match base {
        Err(e) => Err(e),
        Ok(b) => Ok(declared(b, inner)),
    }
}

/// The `>` that closes a template argument list behind `body`.
pub fn closing_angle(body: &Vec<u8>) -> (out: Vec<u8>)
    ensures
        out@ == text::closing_angle(body@),
{
    if body.len() > 0 && body[body.len() - 1] == '>' as u8 {
        lit_bytes(" >")
    } else {
        lit_bytes(">")
    }
}

pub fn as_type_handle(h: PrefixHandle) -> (t: TypeHandle)
    ensures
        t == text::as_type_handle(h),
{
    match h {
        PrefixHandle::WellKnown(w) => TypeHandle::WellKnown(w),
        PrefixHandle::BackReference(i) => TypeHandle::BackReference(i),
    }
}

pub fn is_destructor(kind: CtorDtorName) -> (b: bool)
    ensures
        b == text::is_destructor(kind),
{
    match kind {
        CtorDtorName::DeletingDestructor => true,
        CtorDtorName::CompleteDestructor => true,
        CtorDtorName::BaseDestructor => true,
        _ => false,
    }
}

} // verus!
