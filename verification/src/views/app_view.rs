//! What every view can do.

use vstd::prelude::*;
use crate::app::Event;
use crate::views::scene::Scene;

verus! {

/// A view: a mode of the application that draws itself and reacts to events.
pub trait AppView {
    /// What the view shows in its present state. Drawing changes nothing.
    fn draw(&self) -> Scene;

    /// Consumes `event`, which may change the view's state, and returns the
    /// events that the view sends in turn, in the order in which it sends
    /// them.
    fn handle_event(&mut self, event: Event) -> Vec<Event>;
}

} // verus!
