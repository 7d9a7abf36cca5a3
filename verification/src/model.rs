//! The mathematical model of the syntax tree: the nodes of [`crate::ast`]
//! with sequences in place of vectors. Contracts speak of these values.

use vstd::prelude::*;
use crate::ast::{
    CallOffset, CvQualifiers, Expression, Number, PrefixHandle, RefQualifier, SourceName, Span,
    TemplateArg, TemplateParam, TypeHandle, UnqualifiedName, UnscopedName,
};

verus! {

pub struct FunctionType {
    pub extern_c: bool,
    pub bare: Seq<TypeHandle>,
}

pub enum Prefix {
    Unqualified(UnqualifiedName),
    Nested(PrefixHandle, UnqualifiedName),
    Template(PrefixHandle, Seq<TemplateArg>),
    TemplateParam(TemplateParam),
    Closure(Option<PrefixHandle>, Seq<TypeHandle>, Option<usize>),
}

pub struct NestedName {
    pub cv_qualifiers: CvQualifiers,
    pub ref_qualifier: Option<RefQualifier>,
    pub name: Prefix,
}

pub enum Name {
    Nested(NestedName),
    Unscoped(UnscopedName),
    UnscopedTemplate(PrefixHandle, Seq<TemplateArg>),
    Local(Box<LocalName>),
}

pub struct LocalName {
    pub scope_name: Name,
    pub scope_types: Option<Seq<TypeHandle>>,
    pub entity: LocalEntity,
    pub discriminator: Option<usize>,
}

pub enum LocalEntity {
    Name(Name),
    StringLiteral,
    Closure(Seq<TypeHandle>, Option<usize>),
}

pub enum Type {
    Qualified(CvQualifiers, TypeHandle),
    PointerTo(TypeHandle),
    LvalueRef(TypeHandle),
    RvalueRef(TypeHandle),
    Array(Option<Number>, TypeHandle),
    Function(FunctionType),
    PointerToMember(TypeHandle, TypeHandle),
    ClassEnum(Name),
    TemplateParam(TemplateParam),
    TemplateTemplate(TypeHandle, Seq<TemplateArg>),
    PackExpansion(TypeHandle),
    Decltype(Expression),
    Complex(TypeHandle),
    Imaginary(TypeHandle),
    VendorQualified(SourceName, TypeHandle),
    VendorExtension(SourceName),
}

pub enum Substitutable {
    UnscopedTemplateName(UnscopedName),
    Type(Type),
    Prefix(Prefix),
}

pub enum SpecialName {
    VirtualTable(TypeHandle),
    Vtt(TypeHandle),
    Typeinfo(TypeHandle),
    TypeinfoName(TypeHandle),
    Guard(Name),
    OverrideThunk(CallOffset, Name, Seq<TypeHandle>),
    CovariantThunk(CallOffset, CallOffset, Name, Seq<TypeHandle>),
    ConstructionVtable(TypeHandle, Number, TypeHandle),
}

pub enum Encoding {
    Function(Name, Seq<TypeHandle>),
    Data(Name),
    Special(SpecialName),
}

pub struct MangledName {
    pub encoding: Encoding,
    pub clone_suffix: Option<Span>,
}

} // verus!
