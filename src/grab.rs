use vstd::prelude::*;

verus! {

/// Whether the cursor is grabbed when the viewer starts.
pub const DEFAULT_GRABBED: bool = true;

/// Whether the window holds the cursor, so that mouse motion turns the camera.
#[derive(Debug, Clone, Copy, PartialEq, Eq, Structural)]
pub struct Grabbed(pub bool);

impl Grabbed {
    pub fn new(grabbed: bool) -> (r: Self)
        ensures
            r.0 == grabbed,
    {
        Self(grabbed)
    }

    /// Grabs a free cursor, frees a grabbed one.
    pub fn switch(&mut self)
        ensures
            final(self).0 == !old(self).0,
    {
        self.0 = !self.0
    }
}

impl Default for Grabbed {
    fn default() -> (r: Self)
        ensures
            r.0 == DEFAULT_GRABBED,
    {
        Self(DEFAULT_GRABBED)
    }
}

/// The grab state kept by the tab-press system.
#[derive(Debug, Clone, Copy, PartialEq, Eq, Structural)]
pub struct GrabbedState(pub bool);

impl GrabbedState {
    pub fn new(state: bool) -> (r: Self)
        ensures
            r.0 == state,
    {
        Self(state)
    }
}

impl Default for GrabbedState {
    fn default() -> (r: Self)
        ensures
            r.0 == DEFAULT_GRABBED,
    {
        Self(DEFAULT_GRABBED)
    }
}

} // verus!
