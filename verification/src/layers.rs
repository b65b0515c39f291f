use vstd::prelude::*;

use crate::events::EventHandler;

verus! {

/// An ordered, stacked unit of update and event-handling logic composed by
/// the application. `on_attach` runs exactly once, when the layer is pushed
/// onto the stack and before it ever receives events; `on_detach` runs
/// exactly once when the layer is torn down.
pub trait Layer: EventHandler {
    fn on_attach(&mut self);

    fn on_detach(&mut self);
}

} // verus!
