//! The identity resolver: turns the request's identity signal (the `user`
//! header value) into an actor. Fails closed: no signal, no actor.

use vstd::prelude::*;

use crate::models::{Actor, ActorView};

verus! {

/// Resolve the caller identity from the `user` header value. Succeeds with a
/// named actor exactly when the header is present; an absent header is never
/// defaulted.
pub fn resolve_identity(header: Option<&str>) -> (r: Option<Actor>)
    ensures
        match (header, r) {
            (Some(name), Some(actor)) => actor@ == ActorView::Named(name@),
            (None, None) => true,
            _ => false,
        },
{
    match header {
        Some(name) => Some(Actor::Named(name.to_owned())),
        None => None,
    }
}

} // verus!
