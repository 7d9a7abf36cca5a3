//! Rendering expressions.

use vstd::prelude::*;
use crate::ast::{BuiltinType, Expression, Number, TypeHandle};
use crate::error::Error;
use crate::render::handle::render_handle;
use crate::render::template_args::render_template_param;
use crate::render::{
    append, append_lit, followed, lit_bytes, number_bytes, operator_symbol, rendered, text_of,
    then, Renderer,
};
use crate::text;

verus! {

/// Whether `h` is the type of the language with the code `code`.
fn is_builtin(h: TypeHandle, extended: bool, code: u8) -> (b: bool)
    ensures
        b == (h == TypeHandle::Builtin(BuiltinType { extended, code })),
{
    match h {
        TypeHandle::Builtin(t) => t.extended == extended && t.code == code,
        _ => false,
    }
}

/// A literal.
pub fn render_literal(
    ty: TypeHandle,
    value: Option<Number>,
    ctx: &Renderer,
    active: &mut Vec<usize>,
    fuel: usize,
) -> (r: Result<Vec<u8>, Error>)
    ensures
        final(active)@ == old(active)@,
        rendered(r, text::literal_text(ty, value, ctx@, old(active)@, fuel as nat)),
    decreases fuel, 0nat, text::template_depth(ctx@), 6nat, 0nat,
{
    proof {
        reveal(text::literal_text);
    }
    match value {
        None => if is_builtin(ty, true, 'n' as u8) {
            Ok(lit_bytes("nullptr"))
        } else {
            then(
                lit_bytes("("),
                followed(render_handle(ty, Vec::new(), ctx, active, fuel), ")".as_bytes()),
            )
        },
        Some(v) => match number_bytes(ctx.raw, v) {
            Err(e) => Err(e),
            Ok(number) => if is_builtin(ty, false, 'b' as u8) {
                Ok(
                    if number.len() == 1 && number[0] == '0' as u8 {
                        lit_bytes("false")
                    } else {
                        lit_bytes("true")
                    },
                )
            } else if is_builtin(ty, false, 'i' as u8) {
                Ok(number)
            } else {
                match render_handle(ty, Vec::new(), ctx, active, fuel) {
                    Err(e) => Err(e),
                    Ok(t) => {
                        let mut out = lit_bytes("(");
                        append(&mut out, t.as_slice());
                        append_lit(&mut out, ")");
                        append(&mut out, number.as_slice());
                        Ok(out)
                    },
                }
            },
        },
    }
}

/// The text `t` of the expression `e` as an operand.
fn operand(e: &Expression, t: Result<Vec<u8>, Error>) -> (r: Result<Vec<u8>, Error>)
    ensures
        text_of(r) == text::operand(*e, text_of(t)),
{
    match e {
        Expression::TemplateParam(_) => t,
        Expression::Literal(_, _) => t,
        _ => then(lit_bytes("("), followed(t, ")".as_bytes())),
    }
}

/// `head` where there is one, then `tail` where there is one.
fn joined(head: Result<Vec<u8>, Error>, tail: Result<Vec<u8>, Error>) -> (r: Result<Vec<u8>, Error>)
    ensures
        text_of(r) == text::joined(text_of(head), text_of(tail)),
{
    match head {
        Err(e) => Err(e),
        Ok(h) => then(h, tail),
    }
}

/// An expression.
pub fn render_expression(
    e: &Expression,
    ctx: &Renderer,
    active: &mut Vec<usize>,
    fuel: usize,
) -> (r: Result<Vec<u8>, Error>)
    ensures
        final(active)@ == old(active)@,
        rendered(r, text::expression_text(*e, ctx@, old(active)@, fuel as nat)),
    decreases fuel, 0nat, text::template_depth(ctx@), 6nat, text::expression_size(*e),
{
    proof {
        reveal(text::expression_text);
        reveal(text::literal_text);
    }
    match e {
        Expression::TemplateParam(p) => render_template_param(*p, ctx, active, fuel),
        Expression::Literal(ty, value) => render_literal(*ty, *value, ctx, active, fuel),
        Expression::SizeofType(ty) => then(
            lit_bytes("sizeof ("),
            followed(render_handle(*ty, Vec::new(), ctx, active, fuel), ")".as_bytes()),
        ),
        Expression::SizeofExpr(x) => then(
            lit_bytes("sizeof ("),
            followed(render_expression(x, ctx, active, fuel), ")".as_bytes()),
        ),
        Expression::Unary(a, b, x) => match operator_symbol(*a, *b) {
            None => Err(Error::FormattingError),
            Some(symbol) => {
                let inner = operand(x, render_expression(x, ctx, active, fuel));
                if (*a == 'p' as u8 && *b == 'p' as u8) || (*a == 'm' as u8 && *b == 'm' as u8) {
                    followed(inner, symbol.as_bytes())
                } else {
                    then(lit_bytes(symbol), inner)
                }
            },
        },
        Expression::Binary(a, b, x, y) => match operator_symbol(*a, *b) {
            None => Err(Error::FormattingError),
            Some(symbol) => {
                let left = operand(x, render_expression(x, ctx, active, fuel));
                let right = render_expression(y, ctx, active, fuel);
                let whole = if *a == 'i' as u8 && *b == 'x' as u8 {
                    joined(left, then(lit_bytes("["), followed(right, "]".as_bytes())))
                } else {
                    joined(left, then(lit_bytes(symbol), operand(y, right)))
                };
                if (*a == 'g' as u8 && (*b == 't' as u8 || *b == 'e' as u8)) || (*a == 'r' as u8
                    && (*b == 's' as u8 || *b == 'S' as u8)) {
                    then(lit_bytes("("), followed(whole, ")".as_bytes()))
                } else {
                    whole
                }
            },
        },
        Expression::Conditional(x, y, z) => {
            let first = operand(x, render_expression(x, ctx, active, fuel));
            let second = operand(y, render_expression(y, ctx, active, fuel));
            let third = operand(z, render_expression(z, ctx, active, fuel));
            joined(first, then(lit_bytes("?"), joined(second, then(lit_bytes(":"), third))))
        },
        Expression::Cast(ty, x) => {
            let head = then(
                lit_bytes("("),
                followed(render_handle(*ty, Vec::new(), ctx, active, fuel), ")".as_bytes()),
            );
            let tail = operand(x, render_expression(x, ctx, active, fuel));
            joined(head, tail)
        },
    }
}

} // verus!
