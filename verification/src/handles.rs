//! Which entries of the substitution table a node points at.
//!
//! A node is *below* `n` where every handle in it is the index of one of
//! the first `n` entries. A table is acyclic where each entry is below its
//! own index: it points at earlier entries only, so that no chain of
//! handles comes back to where it began.

use vstd::prelude::*;
use crate::ast::{
    Expression, OperatorName, PrefixHandle, TemplateArg, TypeHandle, UnqualifiedName,
    UnscopedName,
};
use crate::grammar::ParseState;
use crate::model;
use crate::parse::extends;

verus! {

pub open spec fn type_handle_below(h: TypeHandle, n: int) -> bool {
    h matches TypeHandle::BackReference(i) ==> i < n
}

pub open spec fn prefix_handle_below(h: PrefixHandle, n: int) -> bool {
    h matches PrefixHandle::BackReference(i) ==> i < n
}

pub open spec fn operator_below(o: OperatorName, n: int) -> bool {
    o matches OperatorName::Cast(h) ==> type_handle_below(h, n)
}

pub open spec fn unqualified_below(u: UnqualifiedName, n: int) -> bool {
    u matches UnqualifiedName::Operator(o) ==> operator_below(o, n)
}

pub open spec fn unscoped_below(u: UnscopedName, n: int) -> bool {
    match u {
        UnscopedName::Unqualified(q) => unqualified_below(q, n),
        UnscopedName::Std(q) => unqualified_below(q, n),
    }
}

pub open spec fn expression_below(e: Expression, n: int) -> bool
    decreases e,
{
    match e {
        Expression::TemplateParam(_) => true,
        Expression::Literal(h, _) => type_handle_below(h, n),
        Expression::SizeofType(h) => type_handle_below(h, n),
        Expression::SizeofExpr(x) => expression_below(*x, n),
        Expression::Unary(_, _, x) => expression_below(*x, n),
        Expression::Binary(_, _, x, y) => expression_below(*x, n) && expression_below(*y, n),
        Expression::Conditional(x, y, z) => expression_below(*x, n) && expression_below(*y, n)
            && expression_below(*z, n),
        Expression::Cast(h, x) => type_handle_below(h, n) && expression_below(*x, n),
    }
}

/// An expression that is below `n` is below every greater number.
pub proof fn lemma_expression_below_more(e: Expression, n: int, m: int)
    requires
        expression_below(e, n),
        n <= m,
    ensures
        expression_below(e, m),
    decreases e,
{
    match e {
        Expression::SizeofExpr(x) => {
            lemma_expression_below_more(*x, n, m);
        },
        Expression::Unary(_, _, x) => {
            lemma_expression_below_more(*x, n, m);
        },
        Expression::Binary(_, _, x, y) => {
            lemma_expression_below_more(*x, n, m);
            lemma_expression_below_more(*y, n, m);
        },
        Expression::Conditional(x, y, z) => {
            lemma_expression_below_more(*x, n, m);
            lemma_expression_below_more(*y, n, m);
            lemma_expression_below_more(*z, n, m);
        },
        Expression::Cast(_, x) => {
            lemma_expression_below_more(*x, n, m);
        },
        _ => {},
    }
}

pub open spec fn expressions_below(es: Seq<Expression>, n: int) -> bool {
    forall|k: int| 0 <= k < es.len() ==> expression_below(#[trigger] es[k], n)
}

/// Expressions that are below `n` are below every greater number.
pub proof fn lemma_expressions_below_more(es: Seq<Expression>, n: int, m: int)
    requires
        expressions_below(es, n),
        n <= m,
    ensures
        expressions_below(es, m),
{
    assert forall|k: int| 0 <= k < es.len() implies expression_below(#[trigger] es[k], m) by {
        lemma_expression_below_more(es[k], n, m);
    }
}

pub open spec fn template_arg_below(a: TemplateArg, n: int) -> bool {
    match a {
        TemplateArg::Type(h) => type_handle_below(h, n),
        TemplateArg::Literal(h, _) => type_handle_below(h, n),
        TemplateArg::Expression(e) => expression_below(e, n),
    }
}

/// Template arguments that are below `n` are below every greater number.
pub proof fn lemma_template_args_below_more(args: Seq<TemplateArg>, n: int, m: int)
    requires
        template_args_below(args, n),
        n <= m,
    ensures
        template_args_below(args, m),
{
    assert forall|k: int| 0 <= k < args.len() implies template_arg_below(#[trigger] args[k], m) by {
        match args[k] {
            TemplateArg::Expression(e) => {
                lemma_expression_below_more(e, n, m);
            },
            _ => {},
        }
    }
}

pub open spec fn template_args_below(args: Seq<TemplateArg>, n: int) -> bool {
    forall|k: int| 0 <= k < args.len() ==> template_arg_below(#[trigger] args[k], n)
}

pub open spec fn types_below(types: Seq<TypeHandle>, n: int) -> bool {
    forall|k: int| 0 <= k < types.len() ==> type_handle_below(#[trigger] types[k], n)
}

pub open spec fn prefix_below(p: model::Prefix, n: int) -> bool {
    match p {
        model::Prefix::Unqualified(u) => unqualified_below(u, n),
        model::Prefix::Nested(h, u) => prefix_handle_below(h, n) && unqualified_below(u, n),
        model::Prefix::Template(h, args) => prefix_handle_below(h, n) && template_args_below(
            args,
            n,
        ),
        model::Prefix::TemplateParam(_) => true,
        model::Prefix::Closure(h, types, _) => (h matches Some(outer) ==> prefix_handle_below(
            outer,
            n,
        )) && types_below(types, n),
    }
}

pub open spec fn name_below(name: model::Name, n: int) -> bool
    decreases name,
{
    match name {
        model::Name::Nested(nested) => prefix_below(nested.name, n),
        model::Name::Unscoped(u) => unscoped_below(u, n),
        model::Name::UnscopedTemplate(h, args) => prefix_handle_below(h, n)
            && template_args_below(args, n),
        model::Name::Local(l) => name_below(l.scope_name, n) && (l.scope_types matches Some(types)
            ==> types_below(types, n)) && match l.entity {
            model::LocalEntity::Name(inner) => name_below(inner, n),
            model::LocalEntity::StringLiteral => true,
            model::LocalEntity::Closure(types, _) => types_below(types, n),
        },
    }
}

pub open spec fn local_entity_below(entity: model::LocalEntity, n: int) -> bool {
    match entity {
        model::LocalEntity::Name(inner) => name_below(inner, n),
        model::LocalEntity::StringLiteral => true,
        model::LocalEntity::Closure(types, _) => types_below(types, n),
    }
}

pub open spec fn local_name_below(local: model::LocalName, n: int) -> bool {
    name_below(local.scope_name, n) && (local.scope_types matches Some(types) ==> types_below(
        types,
        n,
    )) && local_entity_below(local.entity, n)
}

/// A name that is below `n` is below every greater number.
pub proof fn lemma_name_below_more(name: model::Name, n: int, m: int)
    requires
        name_below(name, n),
        n <= m,
    ensures
        name_below(name, m),
    decreases name,
{
    match name {
        model::Name::Nested(nested) => match nested.name {
            model::Prefix::Template(_, args) => {
                lemma_template_args_below_more(args, n, m);
            },
            _ => {},
        },
        model::Name::UnscopedTemplate(_, args) => {
            lemma_template_args_below_more(args, n, m);
        },
        model::Name::Local(l) => {
            lemma_name_below_more(l.scope_name, n, m);
            match l.entity {
                model::LocalEntity::Name(inner) => {
                    lemma_name_below_more(inner, n, m);
                },
                _ => {},
            }
        },
        _ => {},
    }
}

pub open spec fn type_below(t: model::Type, n: int) -> bool {
    match t {
        model::Type::Qualified(_, h) => type_handle_below(h, n),
        model::Type::PointerTo(h) => type_handle_below(h, n),
        model::Type::LvalueRef(h) => type_handle_below(h, n),
        model::Type::RvalueRef(h) => type_handle_below(h, n),
        model::Type::Array(_, h) => type_handle_below(h, n),
        model::Type::Function(f) => types_below(f.bare, n),
        model::Type::PointerToMember(class, member) => type_handle_below(class, n)
            && type_handle_below(member, n),
        model::Type::ClassEnum(name) => name_below(name, n),
        model::Type::TemplateParam(_) => true,
        model::Type::TemplateTemplate(h, args) => type_handle_below(h, n) && template_args_below(
            args,
            n,
        ),
        model::Type::PackExpansion(h) => type_handle_below(h, n),
        model::Type::Decltype(e) => expression_below(e, n),
        model::Type::Complex(h) => type_handle_below(h, n),
        model::Type::Imaginary(h) => type_handle_below(h, n),
        model::Type::VendorQualified(_, h) => type_handle_below(h, n),
        model::Type::VendorExtension(_) => true,
    }
}

pub open spec fn substitutable_below(s: model::Substitutable, n: int) -> bool {
    match s {
        model::Substitutable::UnscopedTemplateName(u) => unscoped_below(u, n),
        model::Substitutable::Type(t) => type_below(t, n),
        model::Substitutable::Prefix(p) => prefix_below(p, n),
    }
}

pub open spec fn special_name_below(s: model::SpecialName, n: int) -> bool {
    match s {
        model::SpecialName::VirtualTable(h) => type_handle_below(h, n),
        model::SpecialName::Vtt(h) => type_handle_below(h, n),
        model::SpecialName::Typeinfo(h) => type_handle_below(h, n),
        model::SpecialName::TypeinfoName(h) => type_handle_below(h, n),
        model::SpecialName::Guard(name) => name_below(name, n),
        model::SpecialName::OverrideThunk(_, name, types) => name_below(name, n) && types_below(
            types,
            n,
        ),
        model::SpecialName::CovariantThunk(_, _, name, types) => name_below(name, n)
            && types_below(types, n),
        model::SpecialName::ConstructionVtable(derived, _, base) => type_handle_below(derived, n)
            && type_handle_below(base, n),
    }
}

pub open spec fn encoding_below(e: model::Encoding, n: int) -> bool {
    match e {
        model::Encoding::Function(name, types) => name_below(name, n) && types_below(types, n),
        model::Encoding::Data(name) => name_below(name, n),
        model::Encoding::Special(s) => special_name_below(s, n),
    }
}

pub open spec fn mangled_name_below(m: model::MangledName, n: int) -> bool {
    encoding_below(m.encoding, n)
}

/// Whether each entry of the table points at earlier entries only.
pub open spec fn acyclic(subs: Seq<model::Substitutable>) -> bool {
    forall|i: int| 0 <= i < subs.len() ==> substitutable_below(#[trigger] subs[i], i)
}

/// What a production that is accepted does to the state: it ends behind
/// where it began, inside the input, and it leaves a table that is
/// acyclic and holds the entries that it found, each at its index.
pub open spec fn grows(input: Seq<u8>, st: ParseState, st1: ParseState) -> bool {
    st.pos < st1.pos <= input.len() && acyclic(st1.subs) && extends(st1.subs, st.subs)
}

} // verus!
