//! The shared graphics context of the backend that paints every window
//! through one context: on which surface the context is current, and what
//! it takes to paint on another.

use crate::ids::ViewportId;
use vstd::prelude::*;

verus! {

/// The surface on which the shared context is current: that of at most one
/// viewport at a time.
#[derive(Clone, Copy, Debug, PartialEq, Eq, Structural)]
pub enum Context {
    /// The context is current on no surface.
    NotCurrent,
    /// The context is current on the surface of this viewport.
    Current(ViewportId),
}

/// What the embedder does to the shared context, in this order.
#[derive(Clone, Copy, Debug, PartialEq, Eq, Structural)]
pub struct ContextSteps {
    /// First release the context from the surface that it is current on.
    pub release: bool,
    /// Then make it current on the surface of this viewport.
    pub bind: Option<ViewportId>,
}

impl Context {
    pub open spec fn spec_bound_to(self, target: ViewportId) -> (Context, ContextSteps) {
        (
            Context::Current(target),
            ContextSteps { release: self is Current, bind: Some(target) },
        )
    }

    /// What it takes to paint, resize or create the surface of `target`:
    /// a context that is current anywhere, on that very surface too, is
    /// released first, and then made current on the surface of `target`.
    #[verifier::when_used_as_spec(spec_bound_to)]
    pub fn bound_to(self, target: ViewportId) -> (r: (Context, ContextSteps))
        ensures
            r == self.spec_bound_to(target),
    {
        let release = match self {
            Context::Current(_) => true,
            Context::NotCurrent => false,
        };
        (Context::Current(target), ContextSteps { release, bind: Some(target) })
    }

    pub open spec fn spec_released(self) -> (Context, ContextSteps) {
        (Context::NotCurrent, ContextSteps { release: self is Current, bind: None })
    }

    /// What it takes to give up the surfaces, as for a suspension: a
    /// context that is current is released; one that is not, as after a
    /// second suspension in a row, is left alone.
    #[verifier::when_used_as_spec(spec_released)]
    pub fn released(self) -> (r: (Context, ContextSteps))
        ensures
            r == self.spec_released(),
    {
        let release = match self {
            Context::Current(_) => true,
            Context::NotCurrent => false,
        };
        (Context::NotCurrent, ContextSteps { release, bind: None })
    }
}

} // verus!
