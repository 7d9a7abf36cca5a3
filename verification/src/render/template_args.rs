//! Rendering template arguments.

use vstd::prelude::*;
use crate::ast::{TemplateArg, TemplateArgs, TemplateParam};
use crate::error::Error;
use crate::render::expression::{render_expression, render_literal};
use crate::render::handle::render_handle;
use crate::render::{append, append_lit, closing_angle, lit_bytes, rendered, Renderer};
use crate::text;
use crate::text::lit;

verus! {

/// A template argument list: its arguments in angle brackets.
pub fn render_template_args(
    args: &TemplateArgs,
    ctx: &Renderer,
    active: &mut Vec<usize>,
    fuel: usize,
) -> (r: Result<Vec<u8>, Error>)
    ensures
        final(active)@ == old(active)@,
        rendered(r, text::template_args_text(args@, ctx@, old(active)@, fuel as nat)),
    decreases fuel, 0nat, text::template_depth(ctx@), 13nat, args@.len() + 1,
{
    proof {
        reveal(text::template_args_text);
        reveal(text::template_arg_list_text);
    }
    match render_template_arg_list(args, ctx, active, fuel) {
        Err(e) => Err(e),
        Ok(body) => {
            let mut out = lit_bytes("<");
            append(&mut out, body.as_slice());
            append(&mut out, closing_angle(&body).as_slice());
            Ok(out)
        },
    }
}

/// The arguments, with `, ` between them.
pub fn render_template_arg_list(
    args: &TemplateArgs,
    ctx: &Renderer,
    active: &mut Vec<usize>,
    fuel: usize,
) -> (r: Result<Vec<u8>, Error>)
    ensures
        final(active)@ == old(active)@,
        rendered(r, text::template_arg_list_text(args@, 0, ctx@, old(active)@, fuel as nat)),
    decreases fuel, 0nat, text::template_depth(ctx@), 13nat, args@.len(),
{
    proof {
        reveal(text::template_arg_list_text);
        reveal(text::template_arg_text);
    }
    let mut out: Vec<u8> = Vec::new();
    if args.0.len() == 0 {
        return Ok(out);
    }
    let ghost want = text::template_arg_list_text(args@, 0, ctx@, active@, fuel as nat);
    let mut i: usize = 0;
    loop
        invariant
            i < args@.len(),
            active@ == old(active)@,
            want == text::template_arg_list_text(args@, 0, ctx@, old(active)@, fuel as nat),
            want == text::before(
                out@,
                text::template_arg_list_text(args@, i as int, ctx@, old(active)@, fuel as nat),
            ),
        decreases args@.len() - i,
    {
        proof {
            reveal(text::template_arg_list_text);
            reveal(text::template_arg_text);
        }
        match render_template_arg(&args.0[i], ctx, active, fuel) {
            Err(e) => {
                return Err(e);
            },
            Ok(first) => {
                let ghost before_out = out@;
                append(&mut out, first.as_slice());
                if i == args.0.len() - 1 {
                    return Ok(out);
                }
                append_lit(&mut out, ", ");
                assert(out@ =~= before_out + (first@ + lit(", ")));
                assert forall|t: Seq<u8>| before_out + ((first@ + lit(", ")) + t) == #[trigger] (out@
                    + t) by {
                    assert(before_out + ((first@ + lit(", ")) + t) =~= out@ + t);
                }
                i += 1;
            },
        }
    }
}

/// One template argument.
pub fn render_template_arg(
    arg: &TemplateArg,
    ctx: &Renderer,
    active: &mut Vec<usize>,
    fuel: usize,
) -> (r: Result<Vec<u8>, Error>)
    ensures
        final(active)@ == old(active)@,
        rendered(r, text::template_arg_text(*arg, ctx@, old(active)@, fuel as nat)),
    decreases fuel, 0nat, text::template_depth(ctx@), 10nat, 0nat,
{
    proof {
        reveal(text::template_arg_text);
    }
    match arg {
        TemplateArg::Type(h) => render_handle(*h, Vec::new(), ctx, active, fuel),
        TemplateArg::Literal(ty, value) => render_literal(*ty, Some(*value), ctx, active, fuel),
        TemplateArg::Expression(e) => render_expression(e, ctx, active, fuel),
    }
}

/// The template argument that a template parameter stands for.
pub fn render_template_param(
    p: TemplateParam,
    ctx: &Renderer,
    active: &mut Vec<usize>,
    fuel: usize,
) -> (r: Result<Vec<u8>, Error>)
    ensures
        final(active)@ == old(active)@,
        rendered(r, text::template_param_text(p, ctx@, old(active)@, fuel as nat)),
    decreases fuel, 0nat, text::template_depth(ctx@), 4nat, 0nat,
{
    proof {
        reveal(text::template_param_text);
        reveal(text::template_arg_text);
    }
    match ctx.template_args {
        None => Err(Error::FormattingError),
        Some(args) => if p.0 < args.0.len() {
            render_template_arg(&args.0[p.0], &ctx.outside_template(), active, fuel)
        } else {
            Err(Error::FormattingError)
        },
    }
}

} // verus!
