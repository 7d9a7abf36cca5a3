//! Rendering names without their scope.

use vstd::prelude::*;
use crate::ast::{OperatorName, Prefix, PrefixHandle, Substitutable, UnqualifiedName, UnscopedName};
use crate::error::Error;
use crate::render::handle::render_handle;
use crate::render::{
    is_active, is_destructor, lit_bytes, operator_name, push_ordinal, rendered, span_bytes,
    then, well_known_leaf_name, Renderer,
};
use crate::text;

verus! {

/// A name at global scope, or directly in `std`.
pub fn render_unscoped_name(
    n: UnscopedName,
    ctx: &Renderer,
    active: &mut Vec<usize>,
    fuel: usize,
) -> (r: Result<Vec<u8>, Error>)
    ensures
        final(active)@ == old(active)@,
        rendered(r, text::unscoped_name_text(n, ctx@, old(active)@, fuel as nat)),
    decreases fuel, 0nat, text::template_depth(ctx@), 9nat, 0nat,
{
    proof {
        reveal(text::unscoped_name_text);
        reveal(text::unqualified_name_text);
    }
    match n {
        UnscopedName::Unqualified(u) => render_unqualified_name(u, None, ctx, active, fuel),
        UnscopedName::Std(u) => then(
            lit_bytes("std::"),
            render_unqualified_name(u, None, ctx, active, fuel),
        ),
    }
}

/// A name without its scope; a constructor or destructor is called as the
/// class `class`.
pub fn render_unqualified_name(
    n: UnqualifiedName,
    class: Option<PrefixHandle>,
    ctx: &Renderer,
    active: &mut Vec<usize>,
    fuel: usize,
) -> (r: Result<Vec<u8>, Error>)
    ensures
        final(active)@ == old(active)@,
        rendered(r, text::unqualified_name_text(n, class, ctx@, old(active)@, fuel as nat)),
    decreases fuel, 0nat, text::template_depth(ctx@), 8nat, 0nat,
{
    proof {
        reveal(text::unqualified_name_text);
        reveal(text::leaf_text);
    }
    match n {
        UnqualifiedName::Source(s) => span_bytes(ctx.raw, s.0),
        UnqualifiedName::Operator(OperatorName::Simple(a, b)) => match operator_name(a, b) {
            None => Err(Error::FormattingError),
            Some(s) => Ok(s),
        },
        UnqualifiedName::Operator(OperatorName::Cast(h)) => then(
            lit_bytes("operator "),
            render_handle(h, Vec::new(), ctx, active, fuel),
        ),
        UnqualifiedName::Operator(OperatorName::Literal(s)) => then(
            lit_bytes("operator\"\" "),
            span_bytes(ctx.raw, s.0),
        ),
        UnqualifiedName::CtorDtor(kind) => match class {
            None => Err(Error::FormattingError),
            Some(h) => if is_destructor(kind) {
                then(lit_bytes("~"), render_leaf(h, ctx, active, fuel))
            } else {
                render_leaf(h, ctx, active, fuel)
            },
        },
        UnqualifiedName::UnnamedType(index) => {
            let mut out = lit_bytes("{unnamed type");
            push_ordinal(&mut out, index);
            Ok(out)
        },
    }
}

/// The name of the class `h` without its scope and its template
/// arguments.
pub fn render_leaf(h: PrefixHandle, ctx: &Renderer, active: &mut Vec<usize>, fuel: usize) -> (r: Result<
    Vec<u8>,
    Error,
>)
    ensures
        final(active)@ == old(active)@,
        rendered(r, text::leaf_text(h, ctx@, old(active)@, fuel as nat)),
    decreases fuel, 0nat, text::template_depth(ctx@), 7nat, 0nat,
{
    proof {
        reveal(text::leaf_text);
        reveal(text::unqualified_name_text);
    }
    match h {
        PrefixHandle::WellKnown(w) => match well_known_leaf_name(w) {
            None => Err(Error::FormattingError),
            Some(s) => Ok(lit_bytes(s)),
        },
        PrefixHandle::BackReference(i) => if i >= ctx.subs.len() || is_active(active, i) {
            Err(Error::FormattingError)
        } else if fuel == 0 {
            Err(Error::RecursionLimitExceeded)
        } else {
            match ctx.subs.get(i) {
                Err(e) => Err(e),
                Ok(entry) => {
                    active.push(i);
                    let r = match entry {
                        Substitutable::Prefix(Prefix::Unqualified(n)) => render_unqualified_name(
                            *n,
                            None,
                            ctx,
                            active,
                            fuel - 1,
                        ),
                        Substitutable::Prefix(Prefix::Nested(outer, n)) => render_unqualified_name(
                            *n,
                            Some(*outer),
                            ctx,
                            active,
                            fuel - 1,
                        ),
                        Substitutable::Prefix(Prefix::Template(inner, _)) => render_leaf(
                            *inner,
                            ctx,
                            active,
                            fuel - 1,
                        ),
                        Substitutable::UnscopedTemplateName(UnscopedName::Unqualified(u)) => render_unqualified_name(
                            *u,
                            None,
                            ctx,
                            active,
                            fuel - 1,
                        ),
                        Substitutable::UnscopedTemplateName(UnscopedName::Std(u)) => render_unqualified_name(
                            *u,
                            None,
                            ctx,
                            active,
                            fuel - 1,
                        ),
                        _ => Err(Error::FormattingError),
                    };
                    active.pop();
                    assert(active@ =~= old(active)@);
                    r
                },
            }
        },
    }
}

} // verus!
