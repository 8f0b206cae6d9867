use vstd::prelude::*;

verus! {

/// The network's temporal memory: four opaque values produced by one
/// inference call and consumed by the next. The pipeline never looks
/// inside them.
pub struct InitialRecurrentState<S> {
    pub r1: S,
    pub r2: S,
    pub r3: S,
    pub r4: S,
}

impl<S> InitialRecurrentState<S> {
    pub fn new(r1: S, r2: S, r3: S, r4: S) -> (r: Self)
        ensures
            r.r1 == r1,
            r.r2 == r2,
            r.r3 == r3,
            r.r4 == r4,
    {
        InitialRecurrentState { r1, r2, r3, r4 }
    }

    /// Replaces all four values at once by those the engine returned;
    /// nothing of the previous frame is kept.
    pub fn update(&mut self, next: InitialRecurrentState<S>)
        ensures
            *final(self) == next,
    {
        *self = next;
    }
}

} // verus!
