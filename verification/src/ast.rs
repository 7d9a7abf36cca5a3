//! The syntax tree of a mangled name.
//!
//! A node holds short codes and offsets into the raw input, never a copy
//! of its bytes. A node that the grammar lets later text refer back to
//! lives in the substitution table, and the tree holds its index: a
//! handle. Only an expression holds its operands, and a local name the
//! name of the function around it, directly.
//!
//! A node without a list in it is its own mathematical model. One with a
//! list has a model of the same name in [`crate::model`], and `@` leads
//! from the node to it.

use vstd::prelude::*;
use crate::model;

verus! {

/// A run of bytes of the raw input: those at `start..end`.
#[derive(Clone, Copy, Debug, PartialEq, Eq, Structural)]
pub struct Span {
    pub start: usize,
    pub end: usize,
}

/// An identifier, by the place of its text in the raw input.
#[derive(Clone, Copy, Debug, PartialEq, Eq, Structural)]
pub struct SourceName(pub Span);

/// A decimal number, by the place of its digits in the raw input.
#[derive(Clone, Copy, Debug, PartialEq, Eq, Structural)]
pub struct Number {
    pub negative: bool,
    pub digits: Span,
}

/// The qualifiers `restrict`, `volatile` and `const`.
#[derive(Clone, Copy, Debug, PartialEq, Eq, Structural)]
pub struct CvQualifiers {
    pub restrict: bool,
    pub volatile: bool,
    pub const_: bool,
}

/// The `&` or `&&` behind a member function.
#[derive(Clone, Copy, Debug, PartialEq, Eq, Structural)]
pub enum RefQualifier {
    LValueRef,
    RValueRef,
}

/// A type of the language itself, by its code in the grammar: `i` is
/// `int`. `extended` tells the codes that follow a `D` from the others.
#[derive(Clone, Copy, Debug, PartialEq, Eq, Structural)]
pub struct BuiltinType {
    pub extended: bool,
    pub code: u8,
}

/// One of the abbreviations for names of the standard library, by the
/// letter that follows the `S`: `t` is `std`.
#[derive(Clone, Copy, Debug, PartialEq, Eq, Structural)]
pub struct WellKnownComponent(pub u8);

/// A template parameter, by its position.
#[derive(Clone, Copy, Debug, PartialEq, Eq, Structural)]
pub struct TemplateParam(pub usize);

/// What a substitution code stands for.
#[derive(Clone, Copy, Debug, PartialEq, Eq, Structural)]
pub enum Substitution {
    WellKnown(WellKnownComponent),
    BackReference(usize),
}

/// A type: one of the language, an abbreviation, or an entry of the
/// substitution table.
#[derive(Clone, Copy, Debug, PartialEq, Eq, Structural)]
pub enum TypeHandle {
    Builtin(BuiltinType),
    WellKnown(WellKnownComponent),
    BackReference(usize),
}

/// The scope that a name lies in: an abbreviation, or an entry of the
/// substitution table.
#[derive(Clone, Copy, Debug, PartialEq, Eq, Structural)]
pub enum PrefixHandle {
    WellKnown(WellKnownComponent),
    BackReference(usize),
}

/// The name of an operator function.
#[derive(Clone, Copy, Debug, PartialEq, Eq, Structural)]
pub enum OperatorName {
    /// An operator of the language, by its two-letter code: `pl` is `+`.
    Simple(u8, u8),
    /// A conversion to the given type.
    Cast(TypeHandle),
    /// A user-defined literal with the given suffix.
    Literal(SourceName),
}

/// Which constructor or destructor a name stands for.
#[derive(Clone, Copy, Debug, PartialEq, Eq, Structural)]
pub enum CtorDtorName {
    CompleteConstructor,
    BaseConstructor,
    CompleteAllocatingConstructor,
    DeletingDestructor,
    CompleteDestructor,
    BaseDestructor,
}

/// A name without a scope.
#[derive(Clone, Copy, Debug, PartialEq, Eq, Structural)]
pub enum UnqualifiedName {
    Operator(OperatorName),
    CtorDtor(CtorDtorName),
    Source(SourceName),
    /// A type that the program gave no name, with the number that tells
    /// it from the others of its scope: none for the first, `n` for the
    /// one `n + 1` behind the first.
    UnnamedType(Option<usize>),
}

/// A name at global scope, or directly in `std`.
#[derive(Clone, Copy, Debug, PartialEq, Eq, Structural)]
pub enum UnscopedName {
    Unqualified(UnqualifiedName),
    Std(UnqualifiedName),
}

/// An expression, as it stands in a template argument or in `decltype`.
/// An operator is held by its two-letter code.
#[derive(Debug, PartialEq, Eq)]
pub enum Expression {
    TemplateParam(TemplateParam),
    /// A literal of the given type, with its value where it has one.
    Literal(TypeHandle, Option<Number>),
    SizeofType(TypeHandle),
    SizeofExpr(Box<Expression>),
    Unary(u8, u8, Box<Expression>),
    Binary(u8, u8, Box<Expression>, Box<Expression>),
    /// `a ? b : c`
    Conditional(Box<Expression>, Box<Expression>, Box<Expression>),
    /// The expression converted to the type.
    Cast(TypeHandle, Box<Expression>),
}

impl Clone for Expression {
    fn clone(&self) -> (copy: Expression)
        ensures
            copy == *self,
        decreases self,
    {
        match self {
            Expression::TemplateParam(p) => Expression::TemplateParam(*p),
            Expression::Literal(ty, value) => Expression::Literal(*ty, *value),
            Expression::SizeofType(ty) => Expression::SizeofType(*ty),
            Expression::SizeofExpr(x) => Expression::SizeofExpr(Box::new((**x).clone())),
            Expression::Unary(a, b, x) => Expression::Unary(*a, *b, Box::new((**x).clone())),
            Expression::Binary(a, b, x, y) => Expression::Binary(
                *a,
                *b,
                Box::new((**x).clone()),
                Box::new((**y).clone()),
            ),
            Expression::Conditional(x, y, z) => Expression::Conditional(
                Box::new((**x).clone()),
                Box::new((**y).clone()),
                Box::new((**z).clone()),
            ),
            Expression::Cast(ty, x) => Expression::Cast(*ty, Box::new((**x).clone())),
        }
    }
}

/// One argument of a template.
#[derive(Clone, Debug, PartialEq, Eq)]
pub enum TemplateArg {
    Type(TypeHandle),
    /// A literal of the given type with the given value.
    Literal(TypeHandle, Number),
    Expression(Expression),
}

/// The adjustment that a thunk makes to `this`.
#[derive(Clone, Copy, Debug, PartialEq, Eq, Structural)]
pub enum CallOffset {
    NonVirtual(Number),
    Virtual(Number, Number),
}

/// The arguments of a template, in order.
#[derive(Clone, Debug, PartialEq, Eq)]
pub struct TemplateArgs(pub Vec<TemplateArg>);

/// The types of a function: its parameters, led by the return type where
/// the grammar encodes one.
#[derive(Clone, Debug, PartialEq, Eq)]
pub struct BareFunctionType(pub Vec<TypeHandle>);

/// A function type that stands where a type is expected.
#[derive(Clone, Debug, PartialEq, Eq)]
pub struct FunctionType {
    pub extern_c: bool,
    pub bare: BareFunctionType,
}

/// A scope, or a name in a scope.
#[derive(Clone, Debug, PartialEq, Eq)]
pub enum Prefix {
    Unqualified(UnqualifiedName),
    Nested(PrefixHandle, UnqualifiedName),
    Template(PrefixHandle, TemplateArgs),
    TemplateParam(TemplateParam),
    /// The type of a lambda expression, in the scope where there is one,
    /// with the types of its parameters and the number that tells it from
    /// the other closures of its scope, as that of an unnamed type does.
    Closure(Option<PrefixHandle>, BareFunctionType, Option<usize>),
}

/// A name with its scope written out, and the qualifiers of a member
/// function.
#[derive(Clone, Debug, PartialEq, Eq)]
pub struct NestedName {
    pub cv_qualifiers: CvQualifiers,
    pub ref_qualifier: Option<RefQualifier>,
    pub name: Prefix,
}

/// The name of a function, a variable or a class.
#[derive(Debug, PartialEq, Eq)]
pub enum Name {
    Nested(NestedName),
    Unscoped(UnscopedName),
    UnscopedTemplate(PrefixHandle, TemplateArgs),
    Local(Box<LocalName>),
}

/// The name of what is declared inside a function.
#[derive(Debug, PartialEq, Eq)]
pub struct LocalName {
    /// The name of the function.
    pub scope_name: Name,
    /// The types of the function, where its name is encoded with them.
    pub scope_types: Option<BareFunctionType>,
    pub entity: LocalEntity,
    /// The number that tells the entity from others of its name in the
    /// function, where it has one.
    pub discriminator: Option<usize>,
}

/// What is declared inside a function.
#[derive(Debug, PartialEq, Eq)]
pub enum LocalEntity {
    Name(Name),
    StringLiteral,
    /// The type of a lambda expression: the types of its parameters and
    /// its number, as in [`Prefix::Closure`].
    Closure(BareFunctionType, Option<usize>),
}

impl Clone for Name {
    fn clone(&self) -> Name
        decreases self,
    {
        match self {
            Name::Nested(n) => Name::Nested(n.clone()),
            Name::Unscoped(n) => Name::Unscoped(*n),
            Name::UnscopedTemplate(h, args) => Name::UnscopedTemplate(*h, args.clone()),
            Name::Local(l) => Name::Local(Box::new((**l).clone())),
        }
    }
}

impl Clone for LocalName {
    fn clone(&self) -> LocalName
        decreases self,
    {
        LocalName {
            scope_name: self.scope_name.clone(),
            scope_types: self.scope_types.clone(),
            entity: match &self.entity {
                LocalEntity::Name(n) => LocalEntity::Name(n.clone()),
                LocalEntity::StringLiteral => LocalEntity::StringLiteral,
                LocalEntity::Closure(types, index) => LocalEntity::Closure(types.clone(), *index),
            },
            discriminator: self.discriminator,
        }
    }
}

/// The model of a name.
pub open spec fn name_view(name: Name) -> model::Name
    decreases name,
{
    match name {
        Name::Nested(n) => model::Name::Nested(n@),
        Name::Unscoped(n) => model::Name::Unscoped(n),
        Name::UnscopedTemplate(h, args) => model::Name::UnscopedTemplate(h, args@),
        Name::Local(l) => model::Name::Local(Box::new(local_name_view(*l))),
    }
}

/// The model of a local name.
pub open spec fn local_name_view(local: LocalName) -> model::LocalName
    decreases local,
{
    model::LocalName {
        scope_name: name_view(local.scope_name),
        scope_types: match local.scope_types {
            Some(types) => Some(types@),
            None => None,
        },
        entity: match local.entity {
            LocalEntity::Name(n) => model::LocalEntity::Name(name_view(n)),
            LocalEntity::StringLiteral => model::LocalEntity::StringLiteral,
            LocalEntity::Closure(types, index) => model::LocalEntity::Closure(types@, index),
        },
        discriminator: local.discriminator,
    }
}

/// A type that is built from other types or named by the program.
#[derive(Clone, Debug, PartialEq, Eq)]
pub enum Type {
    Qualified(CvQualifiers, TypeHandle),
    PointerTo(TypeHandle),
    LvalueRef(TypeHandle),
    RvalueRef(TypeHandle),
    /// An array, with its dimension where one is given.
    Array(Option<Number>, TypeHandle),
    Function(FunctionType),
    /// A pointer to a member of the first type, which has the second type.
    PointerToMember(TypeHandle, TypeHandle),
    ClassEnum(Name),
    TemplateParam(TemplateParam),
    /// A template, itself given by a handle, applied to arguments.
    TemplateTemplate(TypeHandle, TemplateArgs),
    PackExpansion(TypeHandle),
    /// The type of an expression.
    Decltype(Expression),
    /// The complex number type over the given type.
    Complex(TypeHandle),
    /// The imaginary number type over the given type.
    Imaginary(TypeHandle),
    /// The type with a qualifier that a vendor added to the grammar.
    VendorQualified(SourceName, TypeHandle),
    /// A type that a vendor added to the grammar, rendered as its name.
    VendorExtension(SourceName),
}

/// What an entry of the substitution table can be.
#[derive(Clone, Debug, PartialEq, Eq)]
pub enum Substitutable {
    UnscopedTemplateName(UnscopedName),
    Type(Type),
    Prefix(Prefix),
}

/// A symbol that the compiler made for its own use.
#[derive(Clone, Debug, PartialEq, Eq)]
pub enum SpecialName {
    VirtualTable(TypeHandle),
    Vtt(TypeHandle),
    Typeinfo(TypeHandle),
    TypeinfoName(TypeHandle),
    Guard(Name),
    /// A thunk that adjusts `this` and calls the function named.
    OverrideThunk(CallOffset, Name, BareFunctionType),
    /// A thunk that adjusts `this` and what comes back from the function
    /// named.
    CovariantThunk(CallOffset, CallOffset, Name, BareFunctionType),
    /// The virtual table of the second type while the first is under
    /// construction, at the given offset.
    ConstructionVtable(TypeHandle, Number, TypeHandle),
}

/// What a mangled name encodes.
#[derive(Clone, Debug, PartialEq, Eq)]
pub enum Encoding {
    Function(Name, BareFunctionType),
    Data(Name),
    Special(SpecialName),
}

/// A whole mangled name: what it encodes, and the suffix that the compiler
/// gave to a clone of a function, where it has one.
#[derive(Clone, Debug, PartialEq, Eq)]
pub struct MangledName {
    pub encoding: Encoding,
    pub clone_suffix: Option<Span>,
}

impl View for TemplateArgs {
    type V = Seq<TemplateArg>;

    open spec fn view(&self) -> Seq<TemplateArg> {
        self.0@
    }
}

impl View for BareFunctionType {
    type V = Seq<TypeHandle>;

    open spec fn view(&self) -> Seq<TypeHandle> {
        self.0@
    }
}

impl View for FunctionType {
    type V = model::FunctionType;

    open spec fn view(&self) -> model::FunctionType {
        model::FunctionType { extern_c: self.extern_c, bare: self.bare@ }
    }
}

impl View for Prefix {
    type V = model::Prefix;

    open spec fn view(&self) -> model::Prefix {
        match self {
            Prefix::Unqualified(n) => model::Prefix::Unqualified(*n),
            Prefix::Nested(h, n) => model::Prefix::Nested(*h, *n),
            Prefix::Template(h, args) => model::Prefix::Template(*h, args@),
            Prefix::TemplateParam(p) => model::Prefix::TemplateParam(*p),
            Prefix::Closure(h, types, index) => model::Prefix::Closure(*h, types@, *index),
        }
    }
}

impl View for NestedName {
    type V = model::NestedName;

    open spec fn view(&self) -> model::NestedName {
        model::NestedName {
            cv_qualifiers: self.cv_qualifiers,
            ref_qualifier: self.ref_qualifier,
            name: self.name@,
        }
    }
}

impl View for LocalEntity {
    type V = model::LocalEntity;

    open spec fn view(&self) -> model::LocalEntity {
        match self {
            LocalEntity::Name(n) => model::LocalEntity::Name(name_view(*n)),
            LocalEntity::StringLiteral => model::LocalEntity::StringLiteral,
            LocalEntity::Closure(types, index) => model::LocalEntity::Closure(types@, *index),
        }
    }
}

impl View for LocalName {
    type V = model::LocalName;

    open spec fn view(&self) -> model::LocalName {
        local_name_view(*self)
    }
}

impl View for Name {
    type V = model::Name;

    open spec fn view(&self) -> model::Name {
        name_view(*self)
    }
}

impl View for Type {
    type V = model::Type;

    open spec fn view(&self) -> model::Type {
        match self {
            Type::Qualified(cv, h) => model::Type::Qualified(*cv, *h),
            Type::PointerTo(h) => model::Type::PointerTo(*h),
            Type::LvalueRef(h) => model::Type::LvalueRef(*h),
            Type::RvalueRef(h) => model::Type::RvalueRef(*h),
            Type::Array(n, h) => model::Type::Array(*n, *h),
            Type::Function(f) => model::Type::Function(f@),
            Type::PointerToMember(c, m) => model::Type::PointerToMember(*c, *m),
            Type::ClassEnum(n) => model::Type::ClassEnum(n@),
            Type::TemplateParam(p) => model::Type::TemplateParam(*p),
            Type::TemplateTemplate(h, args) => model::Type::TemplateTemplate(*h, args@),
            Type::PackExpansion(h) => model::Type::PackExpansion(*h),
            Type::Decltype(e) => model::Type::Decltype(*e),
            Type::Complex(h) => model::Type::Complex(*h),
            Type::Imaginary(h) => model::Type::Imaginary(*h),
            Type::VendorQualified(n, h) => model::Type::VendorQualified(*n, *h),
            Type::VendorExtension(n) => model::Type::VendorExtension(*n),
        }
    }
}

impl View for Substitutable {
    type V = model::Substitutable;

    open spec fn view(&self) -> model::Substitutable {
        match self {
            Substitutable::UnscopedTemplateName(n) => model::Substitutable::UnscopedTemplateName(
                *n,
            ),
            Substitutable::Type(t) => model::Substitutable::Type(t@),
            Substitutable::Prefix(p) => model::Substitutable::Prefix(p@),
        }
    }
}

impl View for SpecialName {
    type V = model::SpecialName;

    open spec fn view(&self) -> model::SpecialName {
        match self {
            SpecialName::VirtualTable(h) => model::SpecialName::VirtualTable(*h),
            SpecialName::Vtt(h) => model::SpecialName::Vtt(*h),
            SpecialName::Typeinfo(h) => model::SpecialName::Typeinfo(*h),
            SpecialName::TypeinfoName(h) => model::SpecialName::TypeinfoName(*h),
            SpecialName::Guard(n) => model::SpecialName::Guard(n@),
            SpecialName::OverrideThunk(o, n, f) => model::SpecialName::OverrideThunk(*o, n@, f@),
            SpecialName::CovariantThunk(a, b, n, f) => model::SpecialName::CovariantThunk(
                *a,
                *b,
                n@,
                f@,
            ),
            SpecialName::ConstructionVtable(a, n, b) => model::SpecialName::ConstructionVtable(
                *a,
                *n,
                *b,
            ),
        }
    }
}

impl View for Encoding {
    type V = model::Encoding;

    open spec fn view(&self) -> model::Encoding {
        match self {
            Encoding::Function(n, f) => model::Encoding::Function(n@, f@),
            Encoding::Data(n) => model::Encoding::Data(n@),
            Encoding::Special(s) => model::Encoding::Special(s@),
        }
    }
}

impl View for MangledName {
    type V = model::MangledName;

    open spec fn view(&self) -> model::MangledName {
        model::MangledName { encoding: self.encoding@, clone_suffix: self.clone_suffix }
    }
}

} // verus!
