//! Rendering names and their scopes.

use vstd::prelude::*;
use crate::ast::{local_name_view, name_view, LocalEntity, Name, Prefix};
use crate::render::encoding::render_function;
use crate::error::Error;
use crate::render::handle::render_handle;
use crate::render::template_args::{render_template_args, render_template_param};
use crate::render::unqualified::{render_unqualified_name, render_unscoped_name};
use crate::render::types::render_parameters;
use crate::render::{
    append, append_lit, as_type_handle, followed, lit_bytes, push_ordinal, rendered, then,
    Renderer,
};
use crate::text;

verus! {

/// A name.
pub fn render_name(name: &Name, ctx: &Renderer, active: &mut Vec<usize>, fuel: usize) -> (r: Result<
    Vec<u8>,
    Error,
>)
    ensures
        final(active)@ == old(active)@,
        rendered(r, text::name_text(name@, ctx@, old(active)@, fuel as nat)),
    decreases fuel, 0nat, text::template_depth(ctx@), 16nat, 0nat,
{
    proof {
        reveal(text::name_text);
        reveal(text::prefix_text);
        reveal_with_fuel(name_view, 2);
        reveal_with_fuel(local_name_view, 2);
    }
    match name {
        Name::Nested(nested) => render_prefix(&nested.name, ctx, active, fuel),
        Name::Unscoped(u) => render_unscoped_name(*u, ctx, active, fuel),
        Name::UnscopedTemplate(h, args) => match render_handle(
            as_type_handle(*h),
            Vec::new(),
            ctx,
            active,
            fuel,
        ) {
            Err(e) => Err(e),
            Ok(head) => then(head, render_template_args(args, ctx, active, fuel)),
        },
        Name::Local(l) => if fuel == 0 {
            Err(Error::RecursionLimitExceeded)
        } else {
            let outside = match &l.scope_types {
                None => {
                    let mut fresh: Vec<usize> = Vec::new();
                    render_name(&l.scope_name, &ctx.outside_template(), &mut fresh, fuel - 1)
                },
                Some(types) => render_function(&l.scope_name, types, ctx, fuel - 1),
            };
            match followed(outside, "::".as_bytes()) {
                Err(e) => Err(e),
                Ok(head) => then(
                    head,
                    match &l.entity {
                        LocalEntity::Name(n) => render_name(n, ctx, active, fuel - 1),
                        LocalEntity::StringLiteral => Ok(lit_bytes("string literal")),
                        LocalEntity::Closure(types, index) => match render_parameters(
                            types,
                            0,
                            ctx,
                            active,
                            fuel - 1,
                        ) {
                            Err(e) => Err(e),
                            Ok(params) => {
                                let mut out = lit_bytes("{lambda");
                                append(&mut out, params.as_slice());
                                push_ordinal(&mut out, *index);
                                assert(out@ =~= text::lit("{lambda") + (params@ + (text::lit("#")
                                    + text::decimal_text(text::ordinal(*index)) + text::lit(
                                    "}",
                                ))));
                                Ok(out)
                            },
                        },
                    },
                ),
            }
        },
    }
}

/// A scope, or a name in a scope.
pub fn render_prefix(p: &Prefix, ctx: &Renderer, active: &mut Vec<usize>, fuel: usize) -> (r: Result<
    Vec<u8>,
    Error,
>)
    ensures
        final(active)@ == old(active)@,
        rendered(r, text::prefix_text(p@, ctx@, old(active)@, fuel as nat)),
    decreases fuel, 0nat, text::template_depth(ctx@), 15nat, 0nat,
{
    proof {
        reveal(text::prefix_text);
    }
    match p {
        Prefix::Unqualified(n) => render_unqualified_name(*n, None, ctx, active, fuel),
        Prefix::Nested(h, n) => match followed(
            render_handle(as_type_handle(*h), Vec::new(), ctx, active, fuel),
            "::".as_bytes(),
        ) {
            Err(e) => Err(e),
            Ok(head) => then(head, render_unqualified_name(*n, Some(*h), ctx, active, fuel)),
        },
        Prefix::Template(h, args) => match render_handle(
            as_type_handle(*h),
            Vec::new(),
            ctx,
            active,
            fuel,
        ) {
            Err(e) => Err(e),
            Ok(head) => then(head, render_template_args(args, ctx, active, fuel)),
        },
        Prefix::TemplateParam(p) => render_template_param(*p, ctx, active, fuel),
        Prefix::Closure(h, types, index) => {
            let head = match h {
                None => Ok(Vec::new()),
                Some(outer) => followed(
                    render_handle(as_type_handle(*outer), Vec::new(), ctx, active, fuel),
                    "::".as_bytes(),
                ),
            };
            match head {
                Err(e) => Err(e),
                Ok(scope) => match render_parameters(types, 0, ctx, active, fuel) {
                    Err(e) => Err(e),
                    Ok(params) => {
                        let mut out = scope;
                        append_lit(&mut out, "{lambda");
                        append(&mut out, params.as_slice());
                        push_ordinal(&mut out, *index);
                        Ok(out)
                    },
                },
            }
        },
    }
}

} // verus!
