use vstd::prelude::*;

verus! {

/// Graphics-context capability of the render surface: one-time context
/// setup and per-frame buffer presentation.
pub trait RenderingContext {
    fn init(&mut self);

    fn swap_buffers(&mut self);
}

} // verus!
