//! Identifiers and time.
//!
//! The event loop hands the library plain numbers: a viewport's identity,
//! the operating system's handle for a window, and a reading of a monotonic
//! clock in nanoseconds since an origin that the embedder picks once.

use crate::id_map::Id;
use vstd::prelude::*;

verus! {

/// Identifies one logical window ("viewport").
#[derive(Clone, Copy, Debug, PartialEq, Eq, Structural, Hash)]
pub struct ViewportId(pub u64);

impl ViewportId {
    pub open spec fn spec_main() -> ViewportId {
        ViewportId(0)
    }

    /// The viewport that exists for as long as the application runs.
    #[verifier::when_used_as_spec(spec_main)]
    pub fn main() -> (id: ViewportId)
        ensures
            id == ViewportId::spec_main(),
    {
        ViewportId(0)
    }

    pub open spec fn spec_is_main(&self) -> bool {
        *self == ViewportId::spec_main()
    }

    #[verifier::when_used_as_spec(spec_is_main)]
    pub fn is_main(&self) -> (r: bool)
        ensures
            r == self.spec_is_main(),
    {
        self.0 == 0
    }
}

impl Id for ViewportId {
    open spec fn raw(self) -> u64 {
        self.0
    }

    fn to_raw(self) -> u64 {
        self.0
    }

    proof fn lemma_raw_injective(a: Self, b: Self) {
    }
}

/// A viewport together with the viewport it belongs to.
#[derive(Clone, Copy, Debug, PartialEq, Eq, Structural, Hash)]
pub struct ViewportIdPair {
    pub this: ViewportId,
    pub parent: ViewportId,
}

impl ViewportIdPair {
    pub open spec fn spec_main() -> ViewportIdPair {
        ViewportIdPair { this: ViewportId::spec_main(), parent: ViewportId::spec_main() }
    }

    /// The main viewport, which is its own parent.
    #[verifier::when_used_as_spec(spec_main)]
    pub fn main() -> (pair: ViewportIdPair)
        ensures
            pair == ViewportIdPair::spec_main(),
    {
        ViewportIdPair { this: ViewportId::main(), parent: ViewportId::main() }
    }

    pub open spec fn spec_new(this: ViewportId, parent: ViewportId) -> ViewportIdPair {
        ViewportIdPair { this, parent }
    }

    #[verifier::when_used_as_spec(spec_new)]
    pub fn new(this: ViewportId, parent: ViewportId) -> (pair: ViewportIdPair)
        ensures
            pair == ViewportIdPair::spec_new(this, parent),
    {
        ViewportIdPair { this, parent }
    }
}

/// The operating system's identifier of an open window.
#[derive(Clone, Copy, Debug, PartialEq, Eq, Structural, Hash)]
pub struct WindowId(pub u64);

impl Id for WindowId {
    open spec fn raw(self) -> u64 {
        self.0
    }

    fn to_raw(self) -> u64 {
        self.0
    }

    proof fn lemma_raw_injective(a: Self, b: Self) {
    }
}

/// A reading of the monotonic clock, in nanoseconds since the origin.
#[derive(Clone, Copy, Debug, PartialEq, Eq, Structural, Hash)]
pub struct Instant(pub u64);

impl Instant {
    pub open spec fn spec_earlier(self, other: Instant) -> Instant {
        if other.0 < self.0 {
            other
        } else {
            self
        }
    }

    /// The earlier of two instants.
    #[verifier::when_used_as_spec(spec_earlier)]
    pub fn earlier(self, other: Instant) -> (r: Instant)
        ensures
            r == self.spec_earlier(other),
    {
        if other.0 < self.0 {
            other
        } else {
            self
        }
    }

    pub open spec fn spec_checked_add(self, nanos: u64) -> Option<Instant> {
        if self.0 + nanos <= u64::MAX {
            Some(Instant((self.0 + nanos) as u64))
        } else {
            None
        }
    }

    /// The instant `nanos` nanoseconds later, or `None` where the clock
    /// cannot represent it.
    #[verifier::when_used_as_spec(spec_checked_add)]
    pub fn checked_add(self, nanos: u64) -> (r: Option<Instant>)
        ensures
            r == self.spec_checked_add(nanos),
    {
        match self.0.checked_add(nanos) {
            Some(t) => Some(Instant(t)),
            None => None,
        }
    }
}

} // verus!
