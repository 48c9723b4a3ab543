//! The dispatcher: the one loop that owns the views, knows which of them is
//! active, and consumes events.
//!
//! The dispatcher itself consumes two events. `ChangeView` makes the named
//! view the active one. `Exit` leads back to the main menu from any other
//! view, and ends the application from the main menu. Every other event goes
//! to the active view. What the view sends in turn is handed back to the
//! caller, who puts it on the event channel behind what is already there.

use vstd::prelude::*;
use vstd::view::View as _;
use crate::input::KeyEvent;
use crate::views::app_view::AppView;
use crate::views::character_editor::{CharacterEditor, EditorModel};
use crate::views::combat_tracker::{CombatTracker, tracker_scene, tracker_sends};
use crate::views::main_menu::{MainMenu, MenuModel};
use crate::views::scene::{Scene, SceneModel};

verus! {

/// The views of the application. Exactly one is active at any time.
#[derive(Debug, Clone, Copy, PartialEq, Eq, Hash, Structural)]
pub enum View {
    MainMenu,
    CharacterEditor,
    CombatTracker,
}

/// What travels through the event channel.
#[derive(Debug, Clone, Copy, PartialEq, Eq, Structural)]
pub enum Event {
    Exit,
    ChangeView(View),
    Submit,
    Next,
    Previous,
    Undo,
    Input(KeyEvent),
}

/// The dispatcher. It holds one instance of every view, so the active view
/// is always there to be drawn and to be handed events.
pub struct App {
    /// Whether the loop is to end.
    pub exit: bool,
    /// The active view.
    pub view: View,
    pub main_menu: MainMenu,
    pub character_editor: CharacterEditor,
    pub combat_tracker: CombatTracker,
}

/// The dispatcher as a mathematical value.
pub struct AppModel {
    pub exit: bool,
    pub view: View,
    pub menu: MenuModel,
    pub editor: EditorModel,
}

impl AppModel {
    /// The dispatcher after it has consumed `event`.
    pub open spec fn after(self, event: Event) -> AppModel {
        match event {
            Event::Exit => {
                if self.view == View::MainMenu {
                    AppModel { exit: true, ..self }
                } else {
                    AppModel { view: View::MainMenu, ..self }
                }
            },
            Event::ChangeView(view) => AppModel { view, ..self },
            _ => match self.view {
                View::MainMenu => AppModel { menu: self.menu.after(event), ..self },
                View::CharacterEditor => AppModel { editor: self.editor.after(event), ..self },
                View::CombatTracker => self,
            },
        }
    }

    /// The events that the active view sends when the dispatcher consumes
    /// `event`.
    pub open spec fn sends(self, event: Event) -> Seq<Event> {
        match event {
            Event::Exit => Seq::empty(),
            Event::ChangeView(_) => Seq::empty(),
            _ => match self.view {
                View::MainMenu => self.menu.sends(event),
                View::CharacterEditor => self.editor.sends(event),
                View::CombatTracker => tracker_sends(event),
            },
        }
    }

    /// What the dispatcher shows: the scene of the active view.
    pub open spec fn scene(self) -> SceneModel {
        match self.view {
            View::MainMenu => self.menu.scene(),
            View::CharacterEditor => self.editor.scene(),
            View::CombatTracker => tracker_scene(),
        }
    }

    /// The event that stands for what the channel gave: an event, or
    /// nothing because the channel is closed, which counts as `Exit`.
    pub open spec fn received(received: Option<Event>) -> Event {
        match received {
            Some(event) => event,
            None => Event::Exit,
        }
    }
}

impl vstd::view::View for App {
    type V = AppModel;

    open spec fn view(&self) -> AppModel {
        AppModel {
            exit: self.exit,
            view: self.view,
            menu: self.main_menu@,
            editor: self.character_editor@,
        }
    }
}

/// Drawing is a function of the state: two scenes that `draw` may return for
/// one and the same dispatcher are the same scene. So drawing twice with no
/// event in between shows the same thing twice.
pub proof fn lemma_draw_is_idempotent(app: App, first: Scene, second: Scene)
    requires
        call_ensures(App::draw, (&app,), first),
        call_ensures(App::draw, (&app,), second),
    ensures
        first@ == second@,
{
}

impl App {
    /// The dispatcher at startup: the main menu is active, and every view is
    /// in its first state.
    pub fn new() -> (app: App)
        ensures
            app@ == (AppModel {
                exit: false,
                view: View::MainMenu,
                menu: MenuModel {
                    items: seq!["Character Editor"@, "Combat Tracker"@],
                    selected: 0,
                },
                editor: EditorModel { input: Seq::empty(), feedback: Seq::empty() },
            }),
    {
        App {
            exit: false,
            view: View::MainMenu,
            main_menu: MainMenu::new(),
            character_editor: CharacterEditor::new(),
            combat_tracker: CombatTracker::new(),
        }
    }

    /// The scene of the active view. Drawing changes nothing, so drawing
    /// again without an event in between gives the same scene.
    pub fn draw(&self) -> (scene: Scene)
        ensures
            scene@ == self@.scene(),
    {
        match self.view {
            View::MainMenu => self.main_menu.draw(),
            View::CharacterEditor => self.character_editor.draw(),
            View::CombatTracker => self.combat_tracker.draw(),
        }
    }

    /// Consumes `command` and returns the events that the active view sends
    /// in turn.
    pub fn handle_event(&mut self, command: Event) -> (sent: Vec<Event>)
        ensures
            final(self)@ == old(self)@.after(command),
            sent@ == old(self)@.sends(command),
    {
        match command {
            Event::Exit => {
                match self.view {
                    View::MainMenu => {
                        self.exit = true;
                    },
                    _ => {
                        self.view = View::MainMenu;
                    },
                }
                Vec::new()
            },
            Event::ChangeView(view) => {
                self.view = view;
                Vec::new()
            },
            _ => {
                match self.view {
                    View::MainMenu => self.main_menu.handle_event(command),
                    View::CharacterEditor => self.character_editor.handle_event(command),
                    View::CombatTracker => self.combat_tracker.handle_event(command),
                }
            },
        }
    }

    /// One turn of the loop after drawing: consumes what the channel gave.
    /// `None` says that the channel is closed, which counts as `Exit`.
    pub fn receive(&mut self, received: Option<Event>) -> (sent: Vec<Event>)
        ensures
            final(self)@ == old(self)@.after(AppModel::received(received)),
            sent@ == old(self)@.sends(AppModel::received(received)),
    {
        match received {
            Some(event) => self.handle_event(event),
            None => self.handle_event(Event::Exit),
        }
    }
}

} // verus!
