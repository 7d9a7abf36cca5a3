//! Rendering types.

use vstd::prelude::*;
use crate::ast::{BareFunctionType, Type};
use crate::error::Error;
use crate::render::expression::render_expression;
use crate::render::handle::render_handle;
use crate::render::names::render_name;
use crate::render::template_args::{render_template_args, render_template_param};
use crate::render::{
    append, append_lit, around, cv_bytes, followed, lit_bytes, lit_then, number_bytes,
    rendered, span_bytes, then, wrapped, Renderer,
};
use crate::text;
use crate::text::lit;

verus! {

/// The type `t` around the declarator `inner`.
pub fn render_type(
    t: &Type,
    inner: Vec<u8>,
    ctx: &Renderer,
    active: &mut Vec<usize>,
    fuel: usize,
) -> (r: Result<Vec<u8>, Error>)
    ensures
        final(active)@ == old(active)@,
        rendered(r, text::type_text(t@, inner@, ctx@, old(active)@, fuel as nat)),
    decreases fuel, 0nat, text::template_depth(ctx@), 19nat, 0nat,
{
    proof {
        reveal(text::type_text);
        reveal(text::parameters_text);
    }
    match t {
        Type::Qualified(cv, h) => {
            let mut next = cv_bytes(*cv);
            append(&mut next, inner.as_slice());
            render_handle(*h, next, ctx, active, fuel)
        },
        Type::PointerTo(h) => render_handle(*h, lit_then("*", inner.as_slice()), ctx, active, fuel),
        Type::LvalueRef(h) => render_handle(*h, lit_then("&", inner.as_slice()), ctx, active, fuel),
        Type::RvalueRef(h) => render_handle(
            *h,
            lit_then("&&", inner.as_slice()),
            ctx,
            active,
            fuel,
        ),
        Type::Array(dim, h) => match dim {
            None => {
                let mut next = wrapped(&inner);
                append_lit(&mut next, " []");
                render_handle(*h, next, ctx, active, fuel)
            },
            Some(n) => match number_bytes(ctx.raw, *n) {
                Err(e) => Err(e),
                Ok(d) => {
                    let mut next = wrapped(&inner);
                    append_lit(&mut next, " [");
                    append(&mut next, d.as_slice());
                    append_lit(&mut next, "]");
                    render_handle(*h, next, ctx, active, fuel)
                },
            },
        },
        Type::Function(f) => if f.bare.0.len() == 0 {
            Err(Error::FormattingError)
        } else {
            match render_parameters(&f.bare, 1, ctx, active, fuel) {
                Err(e) => Err(e),
                Ok(params) => {
                    let mut next = wrapped(&inner);
                    append(&mut next, params.as_slice());
                    render_handle(f.bare.0[0], next, ctx, active, fuel)
                },
            }
        },
        Type::PointerToMember(class, member) => match render_handle(
            *class,
            Vec::new(),
            ctx,
            active,
            fuel,
        ) {
            Err(e) => Err(e),
            Ok(c) => {
                let mut next = lit_bytes(" ");
                append(&mut next, c.as_slice());
                append_lit(&mut next, "::*");
                append(&mut next, inner.as_slice());
                render_handle(*member, next, ctx, active, fuel)
            },
        },
        Type::ClassEnum(name) => around(render_name(name, ctx, active, fuel), inner.as_slice()),
        Type::TemplateParam(p) => around(
            render_template_param(*p, ctx, active, fuel),
            inner.as_slice(),
        ),
        Type::TemplateTemplate(h, args) => match render_handle(*h, Vec::new(), ctx, active, fuel) {
            Err(e) => Err(e),
            Ok(head) => around(
                then(head, render_template_args(args, ctx, active, fuel)),
                inner.as_slice(),
            ),
        },
        Type::PackExpansion(h) => followed(
            render_handle(*h, Vec::new(), ctx, active, fuel),
            lit_then("...", inner.as_slice()).as_slice(),
        ),
        Type::Decltype(e) => around(
            then(
                lit_bytes("decltype ("),
                followed(render_expression(e, ctx, active, fuel), ")".as_bytes()),
            ),
            inner.as_slice(),
        ),
        Type::Complex(h) => render_handle(
            *h,
            lit_then(" _Complex", inner.as_slice()),
            ctx,
            active,
            fuel,
        ),
        Type::Imaginary(h) => render_handle(
            *h,
            lit_then(" _Imaginary", inner.as_slice()),
            ctx,
            active,
            fuel,
        ),
        Type::VendorQualified(n, h) => match span_bytes(ctx.raw, n.0) {
            Err(e) => Err(e),
            Ok(qualifier) => {
                let mut next = lit_bytes(" ");
                append(&mut next, qualifier.as_slice());
                append(&mut next, inner.as_slice());
                render_handle(*h, next, ctx, active, fuel)
            },
        },
        Type::VendorExtension(n) => around(span_bytes(ctx.raw, n.0), inner.as_slice()),
    }
}

/// The parameter list of a function whose types from `from` on are those
/// of its parameters.
pub fn render_parameters(
    types: &BareFunctionType,
    from: usize,
    ctx: &Renderer,
    active: &mut Vec<usize>,
    fuel: usize,
) -> (r: Result<Vec<u8>, Error>)
    ensures
        final(active)@ == old(active)@,
        rendered(r, text::parameters_text(types@, from as int, ctx@, old(active)@, fuel as nat)),
    decreases fuel, 0nat, text::template_depth(ctx@), 14nat, 0nat,
{
    proof {
        reveal(text::parameters_text);
        reveal(text::type_list_text);
    }
    if from >= types.0.len() || (types.0.len() - from == 1 && is_void(types, from)) {
        Ok(lit_bytes("()"))
    } else {
        then(lit_bytes("("), followed(render_type_list(types, from, ctx, active, fuel), ")".as_bytes()))
    }
}

/// Whether the type at `at` is `void`.
fn is_void(types: &BareFunctionType, at: usize) -> (b: bool)
    requires
        at < types@.len(),
    ensures
        b == text::is_void(types@[at as int]),
{
    match types.0[at] {
        crate::ast::TypeHandle::Builtin(b) => !b.extended && b.code == 'v' as u8,
        _ => false,
    }
}

/// The types from `from` on, with `, ` between them.
pub fn render_type_list(
    types: &BareFunctionType,
    from: usize,
    ctx: &Renderer,
    active: &mut Vec<usize>,
    fuel: usize,
) -> (r: Result<Vec<u8>, Error>)
    ensures
        final(active)@ == old(active)@,
        rendered(r, text::type_list_text(types@, from as int, ctx@, old(active)@, fuel as nat)),
    decreases fuel, 0nat, text::template_depth(ctx@), 13nat, types@.len() - from,
{
    proof {
        reveal(text::type_list_text);
    }
    let mut out: Vec<u8> = Vec::new();
    if from >= types.0.len() {
        return Ok(out);
    }
    let ghost want = text::type_list_text(types@, from as int, ctx@, active@, fuel as nat);
    let mut i = from;
    loop
        invariant
            from <= i < types@.len(),
            active@ == old(active)@,
            want == text::type_list_text(types@, from as int, ctx@, old(active)@, fuel as nat),
            want == text::before(
                out@,
                text::type_list_text(types@, i as int, ctx@, old(active)@, fuel as nat),
            ),
        decreases types@.len() - i,
    {
        proof {
            reveal(text::type_list_text);
        }
        match render_handle(types.0[i], Vec::new(), ctx, active, fuel) {
            Err(e) => {
                return Err(e);
            },
            Ok(first) => {
                let ghost before_out = out@;
                append(&mut out, first.as_slice());
                if i == types.0.len() - 1 {
                    return Ok(out);
                }
                append_lit(&mut out, ", ");
                assert(out@ =~= before_out + (first@ + lit(", ")));
                assert forall|t: Seq<u8>| before_out + ((first@ + lit(", ")) + t) == #[trigger] (out@
                    + t) by {
                    assert(before_out + ((first@ + lit(", ")) + t) =~= out@ + t);
                }
                i += 1;
            },
        }
    }
}

} // verus!
