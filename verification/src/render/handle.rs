//! Rendering what a handle leads to.

use vstd::prelude::*;
use crate::ast::{Substitutable, TypeHandle};
use crate::error::Error;
use crate::render::names::render_prefix;
use crate::render::types::render_type;
use crate::render::unqualified::render_unscoped_name;
use crate::render::{
    around, builtin_name, declared, is_active, lit_bytes, rendered, well_known_name, Renderer,
};
use crate::text;

verus! {

/// The type `h` around the declarator `inner`.
pub fn render_handle(
    h: TypeHandle,
    inner: Vec<u8>,
    ctx: &Renderer,
    active: &mut Vec<usize>,
    fuel: usize,
) -> (r: Result<Vec<u8>, Error>)
    ensures
        final(active)@ == old(active)@,
        rendered(r, text::handle_text(h, inner@, ctx@, old(active)@, fuel as nat)),
    decreases fuel, 0nat, text::template_depth(ctx@), 5nat, 0nat,
{
    proof {
        reveal(text::handle_text);
        reveal(text::substitutable_text);
    }
    match h {
        TypeHandle::Builtin(b) => match builtin_name(b) {
            None => Err(Error::FormattingError),
            Some(s) => Ok(declared(lit_bytes(s), inner.as_slice())),
        },
        TypeHandle::WellKnown(w) => match well_known_name(w) {
            None => Err(Error::FormattingError),
            Some(s) => Ok(declared(lit_bytes(s), inner.as_slice())),
        },
        TypeHandle::BackReference(i) => if i >= ctx.subs.len() || is_active(active, i) {
            Err(Error::FormattingError)
        } else if fuel == 0 {
            Err(Error::RecursionLimitExceeded)
        } else {
            match ctx.subs.get(i) {
                Err(e) => Err(e),
                Ok(entry) => {
                    active.push(i);
                    let r = render_substitutable(entry, inner, ctx, active, fuel - 1);
                    active.pop();
                    assert(active@ =~= old(active)@);
                    r
                },
            }
        },
    }
}

/// An entry of the table around the declarator `inner`.
pub fn render_substitutable(
    entry: &Substitutable,
    inner: Vec<u8>,
    ctx: &Renderer,
    active: &mut Vec<usize>,
    fuel: usize,
) -> (r: Result<Vec<u8>, Error>)
    ensures
        final(active)@ == old(active)@,
        rendered(r, text::substitutable_text(entry@, inner@, ctx@, old(active)@, fuel as nat)),
    decreases fuel, 0nat, text::template_depth(ctx@), 20nat, 0nat,
{
    proof {
        reveal(text::substitutable_text);
    }
    match entry {
        Substitutable::Type(t) => render_type(t, inner, ctx, active, fuel),
        Substitutable::Prefix(p) => around(render_prefix(p, ctx, active, fuel), inner.as_slice()),
        Substitutable::UnscopedTemplateName(n) => around(
            render_unscoped_name(*n, ctx, active, fuel),
            inner.as_slice(),
        ),
    }
}

} // verus!
