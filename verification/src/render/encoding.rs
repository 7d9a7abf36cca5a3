//! Rendering what a mangled name encodes.

use vstd::prelude::*;
use crate::ast::{
    BareFunctionType, CallOffset, Encoding, LocalEntity, MangledName, Name, OperatorName,
    Prefix, PrefixHandle, SpecialName, Substitutable, TemplateArgs, UnqualifiedName,
    UnscopedName,
};
use crate::error::Error;
use crate::render::handle::render_handle;
use crate::render::names::render_name;
use crate::render::types::render_parameters;
use crate::render::{
    append, cv_bytes, followed, lit_bytes, ref_qualifier_bytes, rendered, span_bytes, then,
    Renderer,
};
use crate::subs::SubstitutionTable;
use crate::text;

verus! {

/// The handle to the template that `name` applies to arguments, where it
/// does so.
fn template_handle(name: &Name) -> (r: Option<PrefixHandle>)
    ensures
        r == match name@ {
            crate::model::Name::UnscopedTemplate(h, _) => Some(h),
            crate::model::Name::Nested(nested) => match nested.name {
                crate::model::Prefix::Template(h, _) => Some(h),
                _ => None,
            },
            _ => None,
        },
{
    match name {
        Name::UnscopedTemplate(h, _) => Some(*h),
        Name::Nested(nested) => match &nested.name {
            Prefix::Template(h, _) => Some(*h),
            _ => None,
        },
        _ => None,
    }
}

/// The unqualified name that a template is called by.
pub fn template_base(name: &Name, subs: &SubstitutionTable) -> (r: Option<UnqualifiedName>)
    ensures
        r == text::template_base(name@, subs@),
{
    match template_handle(name) {
        Some(PrefixHandle::BackReference(i)) => match subs.get(i) {
            Err(_) => None,
            Ok(entry) => match entry {
                Substitutable::Prefix(Prefix::Unqualified(n)) => Some(*n),
                Substitutable::Prefix(Prefix::Nested(_, n)) => Some(*n),
                Substitutable::UnscopedTemplateName(UnscopedName::Unqualified(n)) => Some(*n),
                Substitutable::UnscopedTemplateName(UnscopedName::Std(n)) => Some(*n),
                _ => None,
            },
        },
        _ => None,
    }
}

/// The template arguments that `name` ends in, where it does.
pub fn template_args_of<'a>(name: &'a Name) -> (r: Option<&'a TemplateArgs>)
    ensures
        match text::template_args_of(name@) {
            Some(args) => r matches Some(a) && a@ == args,
            None => r is None,
        },
{
    match name {
        Name::UnscopedTemplate(_, args) => Some(args),
        Name::Nested(nested) => match &nested.name {
            Prefix::Template(_, args) => Some(args),
            _ => None,
        },
        _ => None,
    }
}

/// Whether the first of the types of the function `name` is its return
/// type.
pub fn has_return_type(name: &Name, subs: &SubstitutionTable) -> (b: bool)
    ensures
        b == text::has_return_type(name@, subs@),
{
    match template_base(name, subs) {
        Some(UnqualifiedName::Source(_)) => true,
        Some(UnqualifiedName::Operator(OperatorName::Simple(_, _))) => true,
        Some(UnqualifiedName::Operator(OperatorName::Literal(_))) => true,
        _ => false,
    }
}

/// The qualifiers of a member function, as they follow its parameters.
pub fn member_qualifiers(name: &Name) -> (out: Vec<u8>)
    ensures
        out@ == text::member_qualifiers_text(name@),
{
    match name {
        Name::Nested(nested) => {
            let mut out = cv_bytes(nested.cv_qualifiers);
            append(&mut out, ref_qualifier_bytes(nested.ref_qualifier).as_slice());
            out
        },
        _ => Vec::new(),
    }
}

/// The name that says what `name` names: the name itself, or for what is
/// declared inside a function its own name without the function.
pub fn last_name(name: &Name) -> (last: &Name)
    ensures
        last@ == text::last_name(name@),
    decreases name,
{
    proof {
        reveal_with_fuel(crate::ast::name_view, 2);
        reveal_with_fuel(crate::ast::local_name_view, 2);
    }
    match name {
        Name::Local(l) => match &l.entity {
            LocalEntity::Name(n) => last_name(n),
            _ => name,
        },
        _ => name,
    }
}

/// A function: its return type where it has one, its name, its parameters
/// and its qualifiers.
pub fn render_function(name: &Name, types: &BareFunctionType, ctx: &Renderer, fuel: usize) -> (r: Result<
    Vec<u8>,
    Error,
>)
    ensures
        rendered(r, text::function_text(name@, types@, ctx@, fuel as nat)),
    decreases fuel, 1nat, 0nat, 0nat, 0nat,
{
    proof {
        reveal(text::function_text);
    }
    let outer = ctx.outside_template();
    let last = last_name(name);
    let inner = ctx.inside_template(template_args_of(last));
    let with_return = has_return_type(last, ctx.subs) && types.0.len() > 0;
    let mut active: Vec<usize> = Vec::new();
    let head = if with_return {
        followed(render_handle(types.0[0], Vec::new(), &inner, &mut active, fuel), " ".as_bytes())
    } else {
        Ok(Vec::new())
    };
    match head {
        Err(e) => Err(e),
        Ok(h) => match render_name(name, &outer, &mut active, fuel) {
            Err(e) => Err(e),
            Ok(n) => {
                let first: usize = if with_return {
                    1
                } else {
                    0
                };
                let tail = followed(
                    render_parameters(types, first, &inner, &mut active, fuel),
                    member_qualifiers(last).as_slice(),
                );
                then(h, then(n, tail))
            },
        },
    }
}

/// A symbol that the compiler made for its own use.
pub fn render_special_name(s: &SpecialName, ctx: &Renderer, fuel: usize) -> (r: Result<
    Vec<u8>,
    Error,
>)
    ensures
        rendered(r, text::special_name_text(s@, ctx@, fuel as nat)),
{
    proof {
        reveal(text::special_name_text);
        reveal(text::function_text);
    }
    let mut active: Vec<usize> = Vec::new();
    match s {
        SpecialName::VirtualTable(h) => then(
            lit_bytes("vtable for "),
            render_handle(*h, Vec::new(), ctx, &mut active, fuel),
        ),
        SpecialName::Vtt(h) => then(
            lit_bytes("VTT for "),
            render_handle(*h, Vec::new(), ctx, &mut active, fuel),
        ),
        SpecialName::Typeinfo(h) => then(
            lit_bytes("typeinfo for "),
            render_handle(*h, Vec::new(), ctx, &mut active, fuel),
        ),
        SpecialName::TypeinfoName(h) => then(
            lit_bytes("typeinfo name for "),
            render_handle(*h, Vec::new(), ctx, &mut active, fuel),
        ),
        SpecialName::Guard(n) => then(
            lit_bytes("guard variable for "),
            render_name(n, ctx, &mut active, fuel),
        ),
        SpecialName::OverrideThunk(offset, name, types) => then(
            match offset {
                CallOffset::NonVirtual(_) => lit_bytes("non-virtual thunk to "),
                CallOffset::Virtual(_, _) => lit_bytes("virtual thunk to "),
            },
            render_function(name, types, ctx, fuel),
        ),
        SpecialName::CovariantThunk(_, _, name, types) => then(
            lit_bytes("covariant return thunk to "),
            render_function(name, types, ctx, fuel),
        ),
        SpecialName::ConstructionVtable(derived, _, base) => match followed(
            render_handle(*base, Vec::new(), ctx, &mut active, fuel),
            "-in-".as_bytes(),
        ) {
            Err(e) => Err(e),
            Ok(head) => then(
                lit_bytes("construction vtable for "),
                then(head, render_handle(*derived, Vec::new(), ctx, &mut active, fuel)),
            ),
        },
    }
}

/// What a mangled name stands for, in C++.
pub fn render_encoding(e: &Encoding, ctx: &Renderer, fuel: usize) -> (r: Result<Vec<u8>, Error>)
    ensures
        rendered(r, text::encoding_text(e@, ctx@, fuel as nat)),
{
    proof {
        reveal(text::encoding_text);
        reveal(text::function_text);
        reveal(text::special_name_text);
    }
    match e {
        Encoding::Function(name, types) => render_function(name, types, ctx, fuel),
        Encoding::Data(name) => {
            let mut active: Vec<usize> = Vec::new();
            render_name(name, &ctx.outside_template(), &mut active, fuel)
        },
        Encoding::Special(s) => render_special_name(s, &ctx.outside_template(), fuel),
    }
}

/// A whole mangled name.
pub fn render_mangled_name(m: &MangledName, ctx: &Renderer, fuel: usize) -> (r: Result<
    Vec<u8>,
    Error,
>)
    ensures
        rendered(r, text::mangled_name_text(m@, ctx@, fuel as nat)),
{
    proof {
        reveal(text::mangled_name_text);
    }
    match m.clone_suffix {
        None => render_encoding(&m.encoding, ctx, fuel),
        Some(suffix) => match followed(
            render_encoding(&m.encoding, ctx, fuel),
            " [clone ".as_bytes(),
        ) {
            Err(e) => Err(e),
            Ok(head) => then(head, followed(span_bytes(ctx.raw, suffix), "]".as_bytes())),
        },
    }
}

} // verus!
