//! The combat tracker. It keeps no state yet: it shows its title and lets
//! the user leave with Esc.

use vstd::prelude::*;
use vstd::string::StringExecFns;
use crate::app::Event;
use crate::input::{KeyCode, KeyEvent, KeyEventKind};
use crate::views::app_view::AppView;
use crate::views::scene::{Scene, SceneModel};

verus! {

/// The combat tracker.
pub struct CombatTracker {}

/// The events that the combat tracker sends on `key`: a press of Esc asks to
/// leave.
pub open spec fn tracker_key_sends(key: KeyEvent) -> Seq<Event> {
    if key.kind == KeyEventKind::Press && key.code == KeyCode::Esc {
        seq![Event::Exit]
    } else {
        Seq::empty()
    }
}

/// The events that the combat tracker sends when it consumes `event`.
pub open spec fn tracker_sends(event: Event) -> Seq<Event> {
    match event {
        Event::Input(key) => tracker_key_sends(key),
        _ => Seq::empty(),
    }
}

/// What the combat tracker shows.
pub open spec fn tracker_scene() -> SceneModel {
    SceneModel::CombatTracker { title: "Combat Tracker"@ }
}

impl CombatTracker {
    /// The combat tracker.
    pub fn new() -> CombatTracker {
        CombatTracker {  }
    }

    /// Reacts to a key: a press of Esc asks to leave.
    pub fn handle_key_event(&self, key_event: KeyEvent) -> (sent: Vec<Event>)
        ensures
            sent@ == tracker_key_sends(key_event),
    {
        let mut sent: Vec<Event> = Vec::new();
        if key_event.kind == KeyEventKind::Press {
            match key_event.code {
                KeyCode::Esc => {
                    sent.push(Event::Exit);
                },
                _ => {},
            }
        }
        assert(sent@ =~= tracker_key_sends(key_event));
        sent
    }
}

impl AppView for CombatTracker {
    /// The title.
    fn draw(&self) -> (scene: Scene)
        ensures
            scene@ == tracker_scene(),
    {
        Scene::CombatTracker { title: String::from_str("Combat Tracker") }
    }

    /// Reacts to a key; every other event is ignored.
    fn handle_event(&mut self, event: Event) -> (sent: Vec<Event>)
        ensures
            sent@ == tracker_sends(event),
    {
        match event {
            Event::Input(key_event) => self.handle_key_event(key_event),
            _ => Vec::new(),
        }
    }
}

} // verus!
