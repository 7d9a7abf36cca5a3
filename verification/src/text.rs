//! What each node of the syntax tree reads as in C++.
//!
//! A type is rendered around the declarator that it is the type of. The
//! text of `int` around `*` is `int*`, and a pointer renders what it points
//! to around `*` and its own declarator. Arrays and functions bind tighter
//! than pointers and references, so they put a declarator that begins with
//! one of those in parentheses: a pointer to an array of ten `int` is
//! `int (*) [10]`, and a pointer to a function is `void (*)(int)`.
//!
//! A handle into the substitution table is rendered as the entry that it
//! names. The entries that are being rendered are remembered, and a handle
//! to one of them is a `FormattingError`: no chain of handles is followed
//! in a circle. Every handle that is followed uses up one unit of `fuel`,
//! and one that is met with none left is a `RecursionLimitExceeded`.

use vstd::prelude::*;
use vstd::string::StringSliceAdditionalSpecFns;
use crate::ast::{
    BuiltinType, CallOffset, CtorDtorName, CvQualifiers, Expression, Number, OperatorName,
    PrefixHandle, RefQualifier, Span, TemplateArg, TemplateParam, TypeHandle, UnqualifiedName,
    UnscopedName, WellKnownComponent,
};
use crate::error::Error;
use crate::model;

verus! {

/// What a rendering reads and never changes: the substitution table, the
/// raw input that spans point into, and the arguments of the template that
/// the rendered node lies in, for its template parameters.
pub struct Scope {
    pub subs: Seq<model::Substitutable>,
    pub raw: Seq<u8>,
    pub template_args: Option<Seq<TemplateArg>>,
}

impl Scope {
    /// The same scope outside any template.
    pub open spec fn outside_template(self) -> Scope {
        Scope { subs: self.subs, raw: self.raw, template_args: None }
    }

    /// The same scope inside the template with the arguments `args`.
    pub open spec fn inside_template(self, args: Option<Seq<TemplateArg>>) -> Scope {
        Scope { subs: self.subs, raw: self.raw, template_args: args }
    }
}

/// The text of a node, or why it has none.
pub type Text = Result<Seq<u8>, Error>;

/// The bytes of a piece of text.
pub open spec fn lit(s: &str) -> Seq<u8> {
    s.spec_bytes()
}

/// `head` before the text `tail`, where there is one.
pub open spec fn before(head: Seq<u8>, tail: Text) -> Text {
    match tail {
        Err(e) => Err(e),
        Ok(t) => Ok(head + t),
    }
}

/// `tail` behind the text `head`, where there is one.
pub open spec fn behind(head: Text, tail: Seq<u8>) -> Text {
    match head {
        Err(e) => Err(e),
        Ok(h) => Ok(h + tail),
    }
}

/// The two texts, one behind the other, where both are there.
pub open spec fn joined(head: Text, tail: Text) -> Text {
    match head {
        Err(e) => Err(e),
        Ok(h) => before(h, tail),
    }
}

/// The name of a type of the language.
pub open spec fn builtin_text(b: BuiltinType) -> Option<&'static str> {
    let c = b.code;
    if !b.extended {
        if c == 'v' as u8 {
            Some("void")
        } else if c == 'w' as u8 {
            Some("wchar_t")
        } else if c == 'b' as u8 {
            Some("bool")
        } else if c == 'c' as u8 {
            Some("char")
        } else if c == 'a' as u8 {
            Some("signed char")
        } else if c == 'h' as u8 {
            Some("unsigned char")
        } else if c == 's' as u8 {
            Some("short")
        } else if c == 't' as u8 {
            Some("unsigned short")
        } else if c == 'i' as u8 {
            Some("int")
        } else if c == 'j' as u8 {
            Some("unsigned int")
        } else if c == 'l' as u8 {
            Some("long")
        } else if c == 'm' as u8 {
            Some("unsigned long")
        } else if c == 'x' as u8 {
            Some("long long")
        } else if c == 'y' as u8 {
            Some("unsigned long long")
        } else if c == 'n' as u8 {
            Some("__int128")
        } else if c == 'o' as u8 {
            Some("unsigned __int128")
        } else if c == 'f' as u8 {
            Some("float")
        } else if c == 'd' as u8 {
            Some("double")
        } else if c == 'e' as u8 {
            Some("long double")
        } else if c == 'g' as u8 {
            Some("__float128")
        } else if c == 'z' as u8 {
            Some("...")
        } else {
            None
        }
    } else {
        if c == 'd' as u8 {
            Some("decimal64")
        } else if c == 'e' as u8 {
            Some("decimal128")
        } else if c == 'f' as u8 {
            Some("decimal32")
        } else if c == 'h' as u8 {
            Some("half")
        } else if c == 'i' as u8 {
            Some("char32_t")
        } else if c == 's' as u8 {
            Some("char16_t")
        } else if c == 'a' as u8 {
            Some("auto")
        } else if c == 'c' as u8 {
            Some("decltype(auto)")
        } else if c == 'n' as u8 {
            Some("decltype(nullptr)")
        } else {
            None
        }
    }
}

/// The name that an abbreviation stands for.
pub open spec fn well_known_text(w: WellKnownComponent) -> Option<&'static str> {
    let c = w.0;
    if c == 't' as u8 {
        Some("std")
    } else if c == 'a' as u8 {
        Some("std::allocator")
    } else if c == 'b' as u8 {
        Some("std::basic_string")
    } else if c == 's' as u8 {
        Some("std::string")
    } else if c == 'i' as u8 {
        Some("std::istream")
    } else if c == 'o' as u8 {
        Some("std::ostream")
    } else if c == 'd' as u8 {
        Some("std::iostream")
    } else {
        None
    }
}

/// The name of the class that an abbreviation stands for, without its
/// scope: what its constructors are called.
pub open spec fn well_known_leaf_text(w: WellKnownComponent) -> Option<&'static str> {
    let c = w.0;
    if c == 'a' as u8 {
        Some("allocator")
    } else if c == 'b' as u8 {
        Some("basic_string")
    } else if c == 's' as u8 {
        Some("string")
    } else if c == 'i' as u8 {
        Some("istream")
    } else if c == 'o' as u8 {
        Some("ostream")
    } else if c == 'd' as u8 {
        Some("iostream")
    } else {
        None
    }
}

/// The operator with the given code, as it is written in C++.
pub open spec fn operator_symbol(a: u8, b: u8) -> Option<&'static str> {
    if a == 'n' as u8 {
        if b == 'w' as u8 {
            Some("new")
        } else if b == 'a' as u8 {
            Some("new[]")
        } else if b == 'g' as u8 {
            Some("-")
        } else if b == 'e' as u8 {
            Some("!=")
        } else if b == 't' as u8 {
            Some("!")
        } else {
            None
        }
    } else if a == 'd' as u8 {
        if b == 'l' as u8 {
            Some("delete")
        } else if b == 'a' as u8 {
            Some("delete[]")
        } else if b == 'e' as u8 {
            Some("*")
        } else if b == 'v' as u8 {
            Some("/")
        } else if b == 'V' as u8 {
            Some("/=")
        } else {
            None
        }
    } else if a == 'p' as u8 {
        if b == 's' as u8 {
            Some("+")
        } else if b == 'l' as u8 {
            Some("+")
        } else if b == 'L' as u8 {
            Some("+=")
        } else if b == 'p' as u8 {
            Some("++")
        } else if b == 'm' as u8 {
            Some("->*")
        } else if b == 't' as u8 {
            Some("->")
        } else {
            None
        }
    } else if a == 'a' as u8 {
        if b == 'd' as u8 {
            Some("&")
        } else if b == 'n' as u8 {
            Some("&")
        } else if b == 'S' as u8 {
            Some("=")
        } else if b == 'N' as u8 {
            Some("&=")
        } else if b == 'a' as u8 {
            Some("&&")
        } else {
            None
        }
    } else if a == 'c' as u8 {
        if b == 'o' as u8 {
            Some("~")
        } else if b == 'm' as u8 {
            Some(",")
        } else if b == 'l' as u8 {
            Some("()")
        } else {
            None
        }
    } else if a == 'm' as u8 {
        if b == 'i' as u8 {
            Some("-")
        } else if b == 'l' as u8 {
            Some("*")
        } else if b == 'I' as u8 {
            Some("-=")
        } else if b == 'L' as u8 {
            Some("*=")
        } else if b == 'm' as u8 {
            Some("--")
        } else {
            None
        }
    } else if a == 'r' as u8 {
        if b == 'm' as u8 {
            Some("%")
        } else if b == 'M' as u8 {
            Some("%=")
        } else if b == 's' as u8 {
            Some(">>")
        } else if b == 'S' as u8 {
            Some(">>=")
        } else {
            None
        }
    } else if a == 'o' as u8 {
        if b == 'r' as u8 {
            Some("|")
        } else if b == 'R' as u8 {
            Some("|=")
        } else if b == 'o' as u8 {
            Some("||")
        } else {
            None
        }
    } else if a == 'e' as u8 {
        if b == 'o' as u8 {
            Some("^")
        } else if b == 'O' as u8 {
            Some("^=")
        } else if b == 'q' as u8 {
            Some("==")
        } else {
            None
        }
    } else if a == 'l' as u8 {
        if b == 's' as u8 {
            Some("<<")
        } else if b == 'S' as u8 {
            Some("<<=")
        } else if b == 't' as u8 {
            Some("<")
        } else if b == 'e' as u8 {
            Some("<=")
        } else {
            None
        }
    } else if a == 'g' as u8 {
        if b == 't' as u8 {
            Some(">")
        } else if b == 'e' as u8 {
            Some(">=")
        } else {
            None
        }
    } else if a == 'i' as u8 && b == 'x' as u8 {
        Some("[]")
    } else if a == 'q' as u8 && b == 'u' as u8 {
        Some("?")
    } else {
        None
    }
}

/// Whether the operator is written as a word.
pub open spec fn is_word_operator(a: u8, b: u8) -> bool {
    (a == 'n' as u8 && (b == 'w' as u8 || b == 'a' as u8)) || (a == 'd' as u8 && (b == 'l' as u8
        || b == 'a' as u8))
}

/// The name of the operator function with the given code: `operator`
/// and the operator, with a space before one that is a word.
pub open spec fn operator_text(a: u8, b: u8) -> Option<Seq<u8>> {
    match operator_symbol(a, b) {
        None => None,
        Some(symbol) => Some(
            if is_word_operator(a, b) {
                lit("operator ") + lit(symbol)
            } else {
                lit("operator") + lit(symbol)
            },
        ),
    }
}

/// The bytes of the raw input that a span names; a `FormattingError` where
/// the span does not lie in the input.
pub open spec fn span_text(raw: Seq<u8>, s: Span) -> Text {
    if s.start <= s.end <= raw.len() {
        Ok(raw.subrange(s.start as int, s.end as int))
    } else {
        Err(Error::FormattingError)
    }
}

/// A number as it is written in C++: its digits, behind a `-` where it is
/// negative.
pub open spec fn number_text(raw: Seq<u8>, n: Number) -> Text {
    if n.negative {
        before(lit("-"), span_text(raw, n.digits))
    } else {
        span_text(raw, n.digits)
    }
}

/// The qualifiers, each behind a space, as they follow a type.
pub open spec fn cv_text(cv: CvQualifiers) -> Seq<u8> {
    (if cv.const_ {
        lit(" const")
    } else {
        Seq::empty()
    }) + (if cv.volatile {
        lit(" volatile")
    } else {
        Seq::empty()
    }) + (if cv.restrict {
        lit(" restrict")
    } else {
        Seq::empty()
    })
}

/// The `&` or `&&` behind a member function.
pub open spec fn ref_qualifier_text(q: Option<RefQualifier>) -> Seq<u8> {
    match q {
        None => Seq::empty(),
        Some(RefQualifier::LValueRef) => lit(" &"),
        Some(RefQualifier::RValueRef) => lit(" &&"),
    }
}

/// `s` without the space that it begins with, if it begins with one.
pub open spec fn strip_space(s: Seq<u8>) -> Seq<u8> {
    if s.len() > 0 && s[0] == ' ' as u8 {
        s.skip(1)
    } else {
        s
    }
}

/// Whether the declarator begins with what stands before a name: a `*`,
/// a `&`, a qualifier or the class of a pointer to member. The brackets of
/// an array and the parentheses of a function stand behind the name.
pub open spec fn is_prefix_declarator(inner: Seq<u8>) -> bool {
    let s = strip_space(inner);
    s.len() > 0 && s[0] != '(' as u8 && s[0] != '[' as u8
}

/// The declarator `inner` as an array or a function type holds it: in
/// parentheses where it begins with what stands before a name.
pub open spec fn wrapped(inner: Seq<u8>) -> Seq<u8> {
    if is_prefix_declarator(inner) {
        lit("(") + strip_space(inner) + lit(")")
    } else {
        inner
    }
}

/// The declarator `inner` behind the type `base` that has no part of its
/// own in it, with a space before an opening parenthesis.
pub open spec fn declared(base: Seq<u8>, inner: Seq<u8>) -> Seq<u8> {
    if inner.len() > 0 && inner[0] == '(' as u8 {
        base + lit(" ") + inner
    } else {
        base + inner
    }
}

/// The declarator `inner` behind the text `base`, where there is one.
pub open spec fn around(base: Text, inner: Seq<u8>) -> Text {
    match base {
        Err(e) => Err(e),
        Ok(b) => Ok(declared(b, inner)),
    }
}

/// The `>` that closes a template argument list behind `body`, kept apart
/// from a `>` that `body` ends in: `a<b<c> >`, never `a<b<c>>`, which
/// older C++ reads as a shift.
pub open spec fn closing_angle(body: Seq<u8>) -> Seq<u8> {
    if body.len() > 0 && body[body.len() - 1] == '>' as u8 {
        lit(" >")
    } else {
        lit(">")
    }
}

pub open spec fn as_type_handle(h: PrefixHandle) -> TypeHandle {
    match h {
        PrefixHandle::WellKnown(w) => TypeHandle::WellKnown(w),
        PrefixHandle::BackReference(i) => TypeHandle::BackReference(i),
    }
}

/// The number `n` in decimal digits.
pub open spec fn decimal_text(n: nat) -> Seq<u8>
    decreases n,
{
    if n < 10 {
        seq![('0' as u8 + n) as u8]
    } else {
        decimal_text(n / 10).push(('0' as u8 + n % 10) as u8)
    }
}

/// Which of the unnamed types, or of the closures, of its scope one with
/// the given number is: the first where it has none, and the one `n + 1`
/// behind the first where it has the number `n`.
pub open spec fn ordinal(index: Option<usize>) -> nat {
    match index {
        None => 1,
        Some(n) => (n + 2) as nat,
    }
}

/// How many templates the scope lies in: one or none.
pub open spec fn template_depth(scope: Scope) -> nat {
    if scope.template_args is Some {
        1
    } else {
        0
    }
}

/// How many nodes an expression has.
pub open spec fn expression_size(e: Expression) -> nat
    decreases e,
{
    match e {
        Expression::TemplateParam(_) => 1,
        Expression::Literal(_, _) => 1,
        Expression::SizeofType(_) => 1,
        Expression::SizeofExpr(x) => 1 + expression_size(*x),
        Expression::Unary(_, _, x) => 1 + expression_size(*x),
        Expression::Binary(_, _, x, y) => 1 + expression_size(*x) + expression_size(*y),
        Expression::Conditional(x, y, z) => 1 + expression_size(*x) + expression_size(*y)
            + expression_size(*z),
        Expression::Cast(_, x) => 1 + expression_size(*x),
    }
}

/// Whether the expression is written without an operator, so that it
/// needs no parentheses as an operand.
pub open spec fn is_atomic(e: Expression) -> bool {
    e is TemplateParam || e is Literal
}

/// The text `t` of the expression `e` as an operand: in parentheses,
/// unless the expression is atomic.
pub open spec fn operand(e: Expression, t: Text) -> Text {
    if is_atomic(e) {
        t
    } else {
        before(lit("("), behind(t, lit(")")))
    }
}

/// Whether the unary operator stands behind its operand.
pub open spec fn is_postfix_operator(a: u8, b: u8) -> bool {
    (a == 'p' as u8 && b == 'p' as u8) || (a == 'm' as u8 && b == 'm' as u8)
}

/// Whether the operator begins with `>`, which would close a template
/// argument list: an expression with it at the top is put in parentheses.
pub open spec fn closes_angle(a: u8, b: u8) -> bool {
    (a == 'g' as u8 && (b == 't' as u8 || b == 'e' as u8)) || (a == 'r' as u8 && (b == 's' as u8
        || b == 'S' as u8))
}

/// Whether the type is `decltype(nullptr)`.
pub open spec fn is_nullptr_type(h: TypeHandle) -> bool {
    h == TypeHandle::Builtin(BuiltinType { extended: true, code: 'n' as u8 })
}

/// Whether the digits are the one digit `0`.
pub open spec fn is_zero(digits: Seq<u8>) -> bool {
    digits.len() == 1 && digits[0] == '0' as u8
}

/// Whether the type is `void`.
pub open spec fn is_void(h: TypeHandle) -> bool {
    h == TypeHandle::Builtin(BuiltinType { extended: false, code: 'v' as u8 })
}

/// The type `h` around the declarator `inner`.
#[verifier::opaque]
pub open spec fn handle_text(
    h: TypeHandle,
    inner: Seq<u8>,
    scope: Scope,
    active: Seq<usize>,
    fuel: nat,
) -> Text
    decreases fuel, 0nat, template_depth(scope), 5nat, 0nat,
{
    match h {
        TypeHandle::Builtin(b) => match builtin_text(b) {
            None => Err(Error::FormattingError),
            Some(s) => Ok(declared(lit(s), inner)),
        },
        TypeHandle::WellKnown(w) => match well_known_text(w) {
            None => Err(Error::FormattingError),
            Some(s) => Ok(declared(lit(s), inner)),
        },
        TypeHandle::BackReference(i) => if i >= scope.subs.len() || active.contains(i) {
            Err(Error::FormattingError)
        } else if fuel == 0 {
            Err(Error::RecursionLimitExceeded)
        } else {
            substitutable_text(
                scope.subs[i as int],
                inner,
                scope,
                active.push(i),
                (fuel - 1) as nat,
            )
        },
    }
}

/// An entry of the table around the declarator `inner`.
#[verifier::opaque]
pub open spec fn substitutable_text(
    s: model::Substitutable,
    inner: Seq<u8>,
    scope: Scope,
    active: Seq<usize>,
    fuel: nat,
) -> Text
    decreases fuel, 0nat, template_depth(scope), 20nat, 0nat,
{
    match s {
        model::Substitutable::Type(t) => type_text(t, inner, scope, active, fuel),
        model::Substitutable::Prefix(p) => around(prefix_text(p, scope, active, fuel), inner),
        model::Substitutable::UnscopedTemplateName(n) => around(
            unscoped_name_text(n, scope, active, fuel),
            inner,
        ),
    }
}

/// The type `t` around the declarator `inner`.
#[verifier::opaque]
pub open spec fn type_text(
    t: model::Type,
    inner: Seq<u8>,
    scope: Scope,
    active: Seq<usize>,
    fuel: nat,
) -> Text
    decreases fuel, 0nat, template_depth(scope), 19nat, 0nat,
{
    match t {
        model::Type::Qualified(cv, h) => handle_text(h, cv_text(cv) + inner, scope, active, fuel),
        model::Type::PointerTo(h) => handle_text(h, lit("*") + inner, scope, active, fuel),
        model::Type::LvalueRef(h) => handle_text(h, lit("&") + inner, scope, active, fuel),
        model::Type::RvalueRef(h) => handle_text(h, lit("&&") + inner, scope, active, fuel),
        model::Type::Array(dim, h) => match dim {
            None => handle_text(h, wrapped(inner) + lit(" []"), scope, active, fuel),
            Some(n) => match number_text(scope.raw, n) {
                Err(e) => Err(e),
                Ok(d) => handle_text(
                    h,
                    wrapped(inner) + lit(" [") + d + lit("]"),
                    scope,
                    active,
                    fuel,
                ),
            },
        },
        model::Type::Function(f) => if f.bare.len() == 0 {
            Err(Error::FormattingError)
        } else {
            match parameters_text(f.bare, 1, scope, active, fuel) {
                Err(e) => Err(e),
                Ok(params) => handle_text(
                    f.bare[0],
                    wrapped(inner) + params,
                    scope,
                    active,
                    fuel,
                ),
            }
        },
        model::Type::PointerToMember(class, member) => match handle_text(
            class,
            Seq::empty(),
            scope,
            active,
            fuel,
        ) {
            Err(e) => Err(e),
            Ok(c) => handle_text(member, lit(" ") + c + lit("::*") + inner, scope, active, fuel),
        },
        model::Type::ClassEnum(name) => around(name_text(name, scope, active, fuel), inner),
        model::Type::TemplateParam(p) => around(
            template_param_text(p, scope, active, fuel),
            inner,
        ),
        model::Type::TemplateTemplate(h, args) => around(
            joined(
                handle_text(h, Seq::empty(), scope, active, fuel),
                template_args_text(args, scope, active, fuel),
            ),
            inner,
        ),
        model::Type::PackExpansion(h) => behind(
            handle_text(h, Seq::empty(), scope, active, fuel),
            lit("...") + inner,
        ),
        model::Type::Decltype(e) => around(
            before(lit("decltype ("), behind(expression_text(e, scope, active, fuel), lit(")"))),
            inner,
        ),
        model::Type::Complex(h) => handle_text(h, lit(" _Complex") + inner, scope, active, fuel),
        model::Type::Imaginary(h) => handle_text(
            h,
            lit(" _Imaginary") + inner,
            scope,
            active,
            fuel,
        ),
        model::Type::VendorQualified(n, h) => match span_text(scope.raw, n.0) {
            Err(e) => Err(e),
            Ok(qualifier) => handle_text(h, lit(" ") + qualifier + inner, scope, active, fuel),
        },
        model::Type::VendorExtension(n) => around(span_text(scope.raw, n.0), inner),
    }
}

/// The template argument that a template parameter stands for; a
/// `FormattingError` where the node lies in no template, or in one with
/// fewer arguments. The argument itself is rendered as outside any
/// template.
#[verifier::opaque]
pub open spec fn template_param_text(
    p: TemplateParam,
    scope: Scope,
    active: Seq<usize>,
    fuel: nat,
) -> Text
    decreases fuel, 0nat, template_depth(scope), 4nat, 0nat,
{
    match scope.template_args {
        None => Err(Error::FormattingError),
        Some(args) => if p.0 < args.len() {
            template_arg_text(args[p.0 as int], scope.outside_template(), active, fuel)
        } else {
            Err(Error::FormattingError)
        },
    }
}

/// The parameter list of a function whose types from `from` on are those
/// of its parameters: in parentheses, and empty where the one parameter
/// type is `void`.
#[verifier::opaque]
pub open spec fn parameters_text(
    types: Seq<TypeHandle>,
    from: int,
    scope: Scope,
    active: Seq<usize>,
    fuel: nat,
) -> Text
    decreases fuel, 0nat, template_depth(scope), 14nat, 0nat,
{
    if from >= types.len() || (from + 1 == types.len() && is_void(types[from])) {
        Ok(lit("()"))
    } else {
        before(lit("("), behind(type_list_text(types, from, scope, active, fuel), lit(")")))
    }
}

/// The types from `from` on, each around an empty declarator, with `, `
/// between them.
#[verifier::opaque]
pub open spec fn type_list_text(
    types: Seq<TypeHandle>,
    from: int,
    scope: Scope,
    active: Seq<usize>,
    fuel: nat,
) -> Text
    decreases fuel, 0nat, template_depth(scope), 13nat, types.len() - from,
{
    if from < 0 || from >= types.len() {
        Ok(Seq::empty())
    } else {
        match handle_text(types[from], Seq::empty(), scope, active, fuel) {
            Err(e) => Err(e),
            Ok(first) => if from + 1 == types.len() {
                Ok(first)
            } else {
                before(first + lit(", "), type_list_text(types, from + 1, scope, active, fuel))
            },
        }
    }
}

/// A name. What is declared inside a function is named as the function,
/// `::` and its own name; the function is rendered as outside any
/// template and outside any entry of the table, and it uses up one unit of
/// `fuel`, as a handle does.
#[verifier::opaque]
pub open spec fn name_text(n: model::Name, scope: Scope, active: Seq<usize>, fuel: nat) -> Text
    decreases fuel, 0nat, template_depth(scope), 16nat, 0nat,
{
    match n {
        model::Name::Nested(nested) => prefix_text(nested.name, scope, active, fuel),
        model::Name::Unscoped(u) => unscoped_name_text(u, scope, active, fuel),
        model::Name::UnscopedTemplate(h, args) => joined(
            handle_text(as_type_handle(h), Seq::empty(), scope, active, fuel),
            template_args_text(args, scope, active, fuel),
        ),
        model::Name::Local(l) => if fuel == 0 {
            Err(Error::RecursionLimitExceeded)
        } else {
            let less = (fuel - 1) as nat;
            joined(
                behind(
                    match l.scope_types {
                        None => name_text(l.scope_name, scope.outside_template(), Seq::empty(), less),
                        Some(types) => function_text(l.scope_name, types, scope, less),
                    },
                    lit("::"),
                ),
                match l.entity {
                    model::LocalEntity::Name(n) => name_text(n, scope, active, less),
                    model::LocalEntity::StringLiteral => Ok(lit("string literal")),
                    model::LocalEntity::Closure(types, index) => before(
                        lit("{lambda"),
                        behind(
                            parameters_text(types, 0, scope, active, less),
                            lit("#") + decimal_text(ordinal(index)) + lit("}"),
                        ),
                    ),
                },
            )
        },
    }
}

/// A scope, or a name in a scope: its parts with `::` between them.
#[verifier::opaque]
pub open spec fn prefix_text(p: model::Prefix, scope: Scope, active: Seq<usize>, fuel: nat) -> Text
    decreases fuel, 0nat, template_depth(scope), 15nat, 0nat,
{
    match p {
        model::Prefix::Unqualified(n) => unqualified_name_text(n, None, scope, active, fuel),
        model::Prefix::Nested(h, n) => joined(
            behind(handle_text(as_type_handle(h), Seq::empty(), scope, active, fuel), lit("::")),
            unqualified_name_text(n, Some(h), scope, active, fuel),
        ),
        model::Prefix::Template(h, args) => joined(
            handle_text(as_type_handle(h), Seq::empty(), scope, active, fuel),
            template_args_text(args, scope, active, fuel),
        ),
        model::Prefix::TemplateParam(p) => template_param_text(p, scope, active, fuel),
        model::Prefix::Closure(h, types, index) => {
            let outside = match h {
                None => Ok(Seq::empty()),
                Some(outer) => behind(
                    handle_text(as_type_handle(outer), Seq::empty(), scope, active, fuel),
                    lit("::"),
                ),
            };
            match outside {
                Err(e) => Err(e),
                Ok(head) => match parameters_text(types, 0, scope, active, fuel) {
                    Err(e) => Err(e),
                    Ok(params) => Ok(
                        head + lit("{lambda") + params + (lit("#") + decimal_text(ordinal(index))
                            + lit("}")),
                    ),
                },
            }
        },
    }
}

/// A name at global scope, or directly in `std`.
#[verifier::opaque]
pub open spec fn unscoped_name_text(
    n: UnscopedName,
    scope: Scope,
    active: Seq<usize>,
    fuel: nat,
) -> Text
    decreases fuel, 0nat, template_depth(scope), 9nat, 0nat,
{
    match n {
        UnscopedName::Unqualified(u) => unqualified_name_text(u, None, scope, active, fuel),
        UnscopedName::Std(u) => before(
            lit("std::"),
            unqualified_name_text(u, None, scope, active, fuel),
        ),
    }
}

/// A name without its scope. A constructor or destructor is called as the
/// class `class` that it lies in, and is a `FormattingError` where it lies
/// in none.
#[verifier::opaque]
pub open spec fn unqualified_name_text(
    n: UnqualifiedName,
    class: Option<PrefixHandle>,
    scope: Scope,
    active: Seq<usize>,
    fuel: nat,
) -> Text
    decreases fuel, 0nat, template_depth(scope), 8nat, 0nat,
{
    match n {
        UnqualifiedName::Source(s) => span_text(scope.raw, s.0),
        UnqualifiedName::Operator(OperatorName::Simple(a, b)) => match operator_text(a, b) {
            None => Err(Error::FormattingError),
            Some(s) => Ok(s),
        },
        UnqualifiedName::Operator(OperatorName::Cast(h)) => before(
            lit("operator "),
            handle_text(h, Seq::empty(), scope, active, fuel),
        ),
        UnqualifiedName::Operator(OperatorName::Literal(s)) => before(
            lit("operator\"\" "),
            span_text(scope.raw, s.0),
        ),
        UnqualifiedName::CtorDtor(kind) => match class {
            None => Err(Error::FormattingError),
            Some(h) => if is_destructor(kind) {
                before(lit("~"), leaf_text(h, scope, active, fuel))
            } else {
                leaf_text(h, scope, active, fuel)
            },
        },
        UnqualifiedName::UnnamedType(index) => Ok(
            lit("{unnamed type") + (lit("#") + decimal_text(ordinal(index)) + lit("}")),
        ),
    }
}

pub open spec fn is_destructor(kind: CtorDtorName) -> bool {
    kind == CtorDtorName::DeletingDestructor || kind == CtorDtorName::CompleteDestructor || kind
        == CtorDtorName::BaseDestructor
}

/// The name of the class `h` without its scope and its template
/// arguments.
#[verifier::opaque]
pub open spec fn leaf_text(h: PrefixHandle, scope: Scope, active: Seq<usize>, fuel: nat) -> Text
    decreases fuel, 0nat, template_depth(scope), 7nat, 0nat,
{
    match h {
        PrefixHandle::WellKnown(w) => match well_known_leaf_text(w) {
            None => Err(Error::FormattingError),
            Some(s) => Ok(lit(s)),
        },
        PrefixHandle::BackReference(i) => if i >= scope.subs.len() || active.contains(i) {
            Err(Error::FormattingError)
        } else if fuel == 0 {
            Err(Error::RecursionLimitExceeded)
        } else {
            match scope.subs[i as int] {
                model::Substitutable::Prefix(model::Prefix::Unqualified(n)) => unqualified_name_text(
                    n,
                    None,
                    scope,
                    active.push(i),
                    (fuel - 1) as nat,
                ),
                model::Substitutable::Prefix(model::Prefix::Nested(outer, n)) => unqualified_name_text(
                    n,
                    Some(outer),
                    scope,
                    active.push(i),
                    (fuel - 1) as nat,
                ),
                model::Substitutable::Prefix(model::Prefix::Template(inner, _)) => leaf_text(
                    inner,
                    scope,
                    active.push(i),
                    (fuel - 1) as nat,
                ),
                model::Substitutable::UnscopedTemplateName(UnscopedName::Unqualified(n)) => unqualified_name_text(
                    n,
                    None,
                    scope,
                    active.push(i),
                    (fuel - 1) as nat,
                ),
                model::Substitutable::UnscopedTemplateName(UnscopedName::Std(n)) => unqualified_name_text(
                    n,
                    None,
                    scope,
                    active.push(i),
                    (fuel - 1) as nat,
                ),
                _ => Err(Error::FormattingError),
            }
        },
    }
}

/// A template argument list: its arguments in angle brackets.
#[verifier::opaque]
pub open spec fn template_args_text(
    args: Seq<TemplateArg>,
    scope: Scope,
    active: Seq<usize>,
    fuel: nat,
) -> Text
    decreases fuel, 0nat, template_depth(scope), 13nat, args.len() + 1,
{
    match template_arg_list_text(args, 0, scope, active, fuel) {
        Err(e) => Err(e),
        Ok(body) => Ok(lit("<") + body + closing_angle(body)),
    }
}

/// The arguments from `from` on, with `, ` between them.
#[verifier::opaque]
pub open spec fn template_arg_list_text(
    args: Seq<TemplateArg>,
    from: int,
    scope: Scope,
    active: Seq<usize>,
    fuel: nat,
) -> Text
    decreases fuel, 0nat, template_depth(scope), 13nat, args.len() - from,
{
    if from < 0 || from >= args.len() {
        Ok(Seq::empty())
    } else {
        match template_arg_text(args[from], scope, active, fuel) {
            Err(e) => Err(e),
            Ok(first) => if from + 1 == args.len() {
                Ok(first)
            } else {
                before(
                    first + lit(", "),
                    template_arg_list_text(args, from + 1, scope, active, fuel),
                )
            },
        }
    }
}

/// One template argument.
#[verifier::opaque]
pub open spec fn template_arg_text(
    arg: TemplateArg,
    scope: Scope,
    active: Seq<usize>,
    fuel: nat,
) -> Text
    decreases fuel, 0nat, template_depth(scope), 10nat, 0nat,
{
    match arg {
        TemplateArg::Type(h) => handle_text(h, Seq::empty(), scope, active, fuel),
        TemplateArg::Literal(ty, value) => literal_text(ty, Some(value), scope, active, fuel),
        TemplateArg::Expression(e) => expression_text(e, scope, active, fuel),
    }
}

/// A literal. One of type `bool` is `false` or `true`, one of type `int`
/// its number, and any other its number behind its type in parentheses. One
/// without a number is `nullptr` where that is its type, and its type in
/// parentheses where it is not.
#[verifier::opaque]
pub open spec fn literal_text(
    ty: TypeHandle,
    value: Option<Number>,
    scope: Scope,
    active: Seq<usize>,
    fuel: nat,
) -> Text
    decreases fuel, 0nat, template_depth(scope), 6nat, 0nat,
{
    match value {
        None => if is_nullptr_type(ty) {
            Ok(lit("nullptr"))
        } else {
            before(lit("("), behind(handle_text(ty, Seq::empty(), scope, active, fuel), lit(")")))
        },
        Some(v) => match number_text(scope.raw, v) {
            Err(e) => Err(e),
            Ok(number) => if ty == (TypeHandle::Builtin(
                BuiltinType { extended: false, code: 'b' as u8 },
            )) {
                Ok(
                    if is_zero(number) {
                        lit("false")
                    } else {
                        lit("true")
                    },
                )
            } else if ty == (TypeHandle::Builtin(BuiltinType { extended: false, code: 'i' as u8 })) {
                Ok(number)
            } else {
                match handle_text(ty, Seq::empty(), scope, active, fuel) {
                    Err(e) => Err(e),
                    Ok(t) => Ok(lit("(") + t + lit(")") + number),
                }
            },
        },
    }
}

/// An expression. An operand that has an operator of its own stands in
/// parentheses.
#[verifier::opaque]
pub open spec fn expression_text(e: Expression, scope: Scope, active: Seq<usize>, fuel: nat) -> Text
    decreases fuel, 0nat, template_depth(scope), 6nat, expression_size(e),
{
    match e {
        Expression::TemplateParam(p) => template_param_text(p, scope, active, fuel),
        Expression::Literal(ty, value) => literal_text(ty, value, scope, active, fuel),
        Expression::SizeofType(ty) => before(
            lit("sizeof ("),
            behind(handle_text(ty, Seq::empty(), scope, active, fuel), lit(")")),
        ),
        Expression::SizeofExpr(x) => before(
            lit("sizeof ("),
            behind(expression_text(*x, scope, active, fuel), lit(")")),
        ),
        Expression::Unary(a, b, x) => match operator_symbol(a, b) {
            None => Err(Error::FormattingError),
            Some(symbol) => if is_postfix_operator(a, b) {
                behind(operand(*x, expression_text(*x, scope, active, fuel)), lit(symbol))
            } else {
                before(lit(symbol), operand(*x, expression_text(*x, scope, active, fuel)))
            },
        },
        Expression::Binary(a, b, x, y) => match operator_symbol(a, b) {
            None => Err(Error::FormattingError),
            Some(symbol) => {
                let left = operand(*x, expression_text(*x, scope, active, fuel));
                let right = expression_text(*y, scope, active, fuel);
                let whole = if a == 'i' as u8 && b == 'x' as u8 {
                    joined(left, before(lit("["), behind(right, lit("]"))))
                } else {
                    joined(left, before(lit(symbol), operand(*y, right)))
                };
                if closes_angle(a, b) {
                    before(lit("("), behind(whole, lit(")")))
                } else {
                    whole
                }
            },
        },
        Expression::Conditional(x, y, z) => joined(
            operand(*x, expression_text(*x, scope, active, fuel)),
            before(
                lit("?"),
                joined(
                    operand(*y, expression_text(*y, scope, active, fuel)),
                    before(lit(":"), operand(*z, expression_text(*z, scope, active, fuel))),
                ),
            ),
        ),
        Expression::Cast(ty, x) => joined(
            before(lit("("), behind(handle_text(ty, Seq::empty(), scope, active, fuel), lit(")"))),
            operand(*x, expression_text(*x, scope, active, fuel)),
        ),
    }
}

/// The name that says what `name` names: the name itself, or for what is
/// declared inside a function its own name without the function.
pub open spec fn last_name(name: model::Name) -> model::Name
    decreases name,
{
    match name {
        model::Name::Local(l) => match l.entity {
            model::LocalEntity::Name(n) => last_name(n),
            _ => name,
        },
        _ => name,
    }
}

/// The unqualified name that a template is called by, where `name` is a
/// template applied to arguments and the table holds its name.
pub open spec fn template_base(name: model::Name, subs: Seq<model::Substitutable>) -> Option<
    UnqualifiedName,
> {
    let handle = match name {
        model::Name::UnscopedTemplate(h, _) => Some(h),
        model::Name::Nested(nested) => match nested.name {
            model::Prefix::Template(h, _) => Some(h),
            _ => None,
        },
        _ => None,
    };
    match handle {
        Some(PrefixHandle::BackReference(i)) => if i < subs.len() {
            match subs[i as int] {
                model::Substitutable::Prefix(model::Prefix::Unqualified(n)) => Some(n),
                model::Substitutable::Prefix(model::Prefix::Nested(_, n)) => Some(n),
                model::Substitutable::UnscopedTemplateName(UnscopedName::Unqualified(n)) => Some(n),
                model::Substitutable::UnscopedTemplateName(UnscopedName::Std(n)) => Some(n),
                _ => None,
            }
        } else {
            None
        },
        _ => None,
    }
}

/// The template arguments that `name` ends in, where it does.
pub open spec fn template_args_of(name: model::Name) -> Option<Seq<TemplateArg>> {
    match name {
        model::Name::UnscopedTemplate(_, args) => Some(args),
        model::Name::Nested(nested) => match nested.name {
            model::Prefix::Template(_, args) => Some(args),
            _ => None,
        },
        _ => None,
    }
}

/// Whether the first of the types of the function `name` is its return
/// type: the grammar encodes one for a template, unless it is a
/// constructor, a destructor or a conversion.
pub open spec fn has_return_type(name: model::Name, subs: Seq<model::Substitutable>) -> bool {
    match template_base(name, subs) {
        Some(UnqualifiedName::Source(_)) => true,
        Some(UnqualifiedName::Operator(OperatorName::Simple(_, _))) => true,
        Some(UnqualifiedName::Operator(OperatorName::Literal(_))) => true,
        _ => false,
    }
}

/// The qualifiers of a member function, as they follow its parameters.
pub open spec fn member_qualifiers_text(name: model::Name) -> Seq<u8> {
    match name {
        model::Name::Nested(nested) => cv_text(nested.cv_qualifiers) + ref_qualifier_text(
            nested.ref_qualifier,
        ),
        _ => Seq::empty(),
    }
}

/// A function: its return type where it has one, its name, its parameters
/// and its qualifiers. Inside, a template parameter stands for an argument
/// of the function's own name.
#[verifier::opaque]
pub open spec fn function_text(
    name: model::Name,
    types: Seq<TypeHandle>,
    scope: Scope,
    fuel: nat,
) -> Text
    decreases fuel, 1nat, 0nat, 0nat, 0nat,
{
    let outer = scope.outside_template();
    let last = last_name(name);
    let inner = scope.inside_template(template_args_of(last));
    let with_return = has_return_type(last, scope.subs) && types.len() > 0;
    let first = if with_return {
        1int
    } else {
        0int
    };
    joined(
        if with_return {
            behind(handle_text(types[0], Seq::empty(), inner, Seq::empty(), fuel), lit(" "))
        } else {
            Ok(Seq::empty())
        },
        joined(
            name_text(name, outer, Seq::empty(), fuel),
            behind(
                parameters_text(types, first, inner, Seq::empty(), fuel),
                member_qualifiers_text(last),
            ),
        ),
    )
}

/// A symbol that the compiler made for its own use, as a phrase that says
/// what it is.
#[verifier::opaque]
pub open spec fn special_name_text(s: model::SpecialName, scope: Scope, fuel: nat) -> Text {
    match s {
        model::SpecialName::VirtualTable(h) => before(
            lit("vtable for "),
            handle_text(h, Seq::empty(), scope, Seq::empty(), fuel),
        ),
        model::SpecialName::Vtt(h) => before(
            lit("VTT for "),
            handle_text(h, Seq::empty(), scope, Seq::empty(), fuel),
        ),
        model::SpecialName::Typeinfo(h) => before(
            lit("typeinfo for "),
            handle_text(h, Seq::empty(), scope, Seq::empty(), fuel),
        ),
        model::SpecialName::TypeinfoName(h) => before(
            lit("typeinfo name for "),
            handle_text(h, Seq::empty(), scope, Seq::empty(), fuel),
        ),
        model::SpecialName::Guard(n) => before(
            lit("guard variable for "),
            name_text(n, scope, Seq::empty(), fuel),
        ),
        model::SpecialName::OverrideThunk(offset, name, types) => before(
            match offset {
                CallOffset::NonVirtual(_) => lit("non-virtual thunk to "),
                CallOffset::Virtual(_, _) => lit("virtual thunk to "),
            },
            function_text(name, types, scope, fuel),
        ),
        model::SpecialName::CovariantThunk(_, _, name, types) => before(
            lit("covariant return thunk to "),
            function_text(name, types, scope, fuel),
        ),
        model::SpecialName::ConstructionVtable(derived, _, base) => before(
            lit("construction vtable for "),
            joined(
                behind(handle_text(base, Seq::empty(), scope, Seq::empty(), fuel), lit("-in-")),
                handle_text(derived, Seq::empty(), scope, Seq::empty(), fuel),
            ),
        ),
    }
}

/// What a mangled name stands for, in C++. `scope` holds the table and the
/// raw input of the name; it is rendered as outside any template.
#[verifier::opaque]
pub open spec fn encoding_text(e: model::Encoding, scope: Scope, fuel: nat) -> Text {
    match e {
        model::Encoding::Function(name, types) => function_text(name, types, scope, fuel),
        model::Encoding::Data(name) => name_text(name, scope.outside_template(), Seq::empty(), fuel),
        model::Encoding::Special(s) => special_name_text(s, scope.outside_template(), fuel),
    }
}

/// A whole mangled name: what it encodes, and behind that the suffix of a
/// clone, where it has one, as ` [clone .suffix]`.
#[verifier::opaque]
pub open spec fn mangled_name_text(m: model::MangledName, scope: Scope, fuel: nat) -> Text {
    match m.clone_suffix {
        None => encoding_text(m.encoding, scope, fuel),
        Some(suffix) => joined(
            behind(encoding_text(m.encoding, scope, fuel), lit(" [clone ")),
            behind(span_text(scope.raw, suffix), lit("]")),
        ),
    }
}

} // verus!
