use vstd::prelude::*;

use crate::events::Event;

pub mod glfw;

verus! {

/// Plain configuration record supplied when the render surface is created.
pub struct WindowProps {
    pub title: String,
    pub width: u32,
    pub height: u32,
}

/// The render surface collaborator: owns the platform window and graphics
/// context, polls platform input into the shared frame queue as normalized
/// events, and presents frames.
pub trait Window {
    fn new(props: WindowProps) -> Self where Self: Sized;

    fn on_update(&mut self, event_queue: &mut Vec<Event>);

    fn get_title(&self) -> &str;

    fn get_width(&self) -> u32;

    fn get_height(&self) -> u32;
}

} // verus!
