use vstd::prelude::*;

verus! {

/// A piece of per-frame behaviour: its state is made once, then updated on
/// every frame.
pub trait System<T>: Sized {
    fn init() -> Self;

    fn update(&self, state: T);
}

} // verus!
