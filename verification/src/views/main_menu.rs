//! The main menu: a list of items with a selection that moves in a cycle.

use vstd::prelude::*;
use vstd::arithmetic::div_mod::{
    lemma_add_mod_noop_right, lemma_mod_add_multiples_vanish, lemma_mod_pos_bound, lemma_small_mod,
};
use vstd::string::StringExecFns;
use crate::app;
use crate::app::Event;
use crate::input::{KeyCode, KeyEvent, KeyEventKind};
use crate::views::app_view::AppView;
use crate::views::scene::{Scene, SceneModel, texts};

verus! {

/// The main menu. Its list is never empty, and its selection is always an
/// index into the list.
pub struct MainMenu {
    items: Vec<String>,
    selected: usize,
}

/// The main menu as a mathematical value.
pub struct MenuModel {
    pub items: Seq<Seq<char>>,
    pub selected: nat,
}

/// The selection after `i` in a cycle of `n` items.
pub open spec fn next_index(n: nat, i: nat) -> nat {
    ((i as int + 1) % (n as int)) as nat
}

/// The selection before `i` in a cycle of `n` items.
pub open spec fn previous_index(n: nat, i: nat) -> nat {
    ((i as int + n as int - 1) % (n as int)) as nat
}

/// The event that a key stands for in the main menu, if any. Only a press
/// counts.
pub open spec fn menu_key_event(key: KeyEvent) -> Option<Event> {
    if key.kind != KeyEventKind::Press {
        None
    } else {
        match key.code {
            KeyCode::Esc => Some(Event::Exit),
            KeyCode::Up => Some(Event::Previous),
            KeyCode::Down => Some(Event::Next),
            KeyCode::Enter => Some(Event::Submit),
            _ => None,
        }
    }
}

/// The view that submitting the item at `selected` asks for, if any.
pub open spec fn submit_target(selected: nat) -> Option<app::View> {
    if selected == 0 {
        Some(app::View::CharacterEditor)
    } else if selected == 1 {
        Some(app::View::CombatTracker)
    } else {
        None
    }
}

/// The sequence that holds `e`, or nothing.
pub open spec fn optional<A>(e: Option<A>) -> Seq<A> {
    match e {
        Some(a) => seq![a],
        None => Seq::empty(),
    }
}

impl MenuModel {
    /// The menu with the selection moved to `selected`.
    pub open spec fn select(self, selected: nat) -> MenuModel {
        MenuModel { items: self.items, selected }
    }

    /// The menu after it has consumed `event`.
    pub open spec fn after(self, event: Event) -> MenuModel {
        match event {
            Event::Next => self.select(next_index(self.items.len(), self.selected)),
            Event::Previous => self.select(previous_index(self.items.len(), self.selected)),
            _ => self,
        }
    }

    /// The events that the menu sends when it consumes `event`.
    pub open spec fn sends(self, event: Event) -> Seq<Event> {
        match event {
            Event::Submit => optional(
                match submit_target(self.selected) {
                    Some(view) => Some(Event::ChangeView(view)),
                    None => None,
                },
            ),
            Event::Input(key) => optional(menu_key_event(key)),
            _ => Seq::empty(),
        }
    }

    /// What the menu shows.
    pub open spec fn scene(self) -> SceneModel {
        SceneModel::MainMenu {
            title: "Main Menu"@,
            items: self.items,
            selected: self.selected,
            highlight_symbol: ">"@,
        }
    }
}

/// What `event` adds to the net number of steps: one for `Next`, minus one
/// for `Previous`, nothing for any other event.
pub open spec fn step_of(event: Event) -> int {
    match event {
        Event::Next => 1,
        Event::Previous => -1,
        _ => 0,
    }
}

/// The net number of steps forward that `events` make.
pub open spec fn net_steps(events: Seq<Event>) -> int
    decreases events.len(),
{
    if events.len() == 0 {
        0
    } else {
        net_steps(events.drop_last()) + step_of(events.last())
    }
}

impl MenuModel {
    /// The menu after it has consumed `events`, one after the other.
    pub open spec fn after_all(self, events: Seq<Event>) -> MenuModel
        decreases events.len(),
    {
        if events.len() == 0 {
            self
        } else {
            self.after_all(events.drop_last()).after(events.last())
        }
    }
}

/// The selection moves in a cycle: whatever events a menu with a valid
/// selection consumes, its items stay as they are, its selection stays an
/// index into them, and that index is the first selection plus the net
/// number of steps forward, modulo the number of items.
pub proof fn lemma_cyclic_wraparound(menu: MenuModel, events: Seq<Event>)
    requires
        menu.selected < menu.items.len(),
    ensures
        menu.after_all(events).items == menu.items,
        menu.after_all(events).selected < menu.items.len(),
        menu.after_all(events).selected == (menu.selected + net_steps(events)) % (
        menu.items.len() as int),
    decreases events.len(),
{
    let n = menu.items.len() as int;
    let s = menu.selected as int;
    if events.len() == 0 {
        lemma_small_mod(menu.selected, menu.items.len());
    } else {
        lemma_cyclic_wraparound(menu, events.drop_last());
        let k = net_steps(events.drop_last());
        let x = menu.after_all(events.drop_last()).selected as int;
        assert(x == (s + k) % n);
        lemma_mod_pos_bound(x + 1, n);
        lemma_mod_pos_bound(x + n - 1, n);
        match events.last() {
            Event::Next => {
                lemma_add_mod_noop_right(1, s + k, n);
            },
            Event::Previous => {
                lemma_add_mod_noop_right(n - 1, s + k, n);
                lemma_mod_add_multiples_vanish(s + k - 1, n);
            },
            _ => {},
        }
    }
}

impl View for MainMenu {
    type V = MenuModel;

    closed spec fn view(&self) -> MenuModel {
        MenuModel { items: texts(self.items@), selected: self.selected as nat }
    }
}

impl MainMenu {
    #[verifier::type_invariant]
    spec fn selection_is_valid(self) -> bool {
        self.selected < self.items@.len()
    }

    /// The menu of the application: the character editor, then the combat
    /// tracker, with the first selected.
    pub fn new() -> (menu: MainMenu)
        ensures
            menu@ == (MenuModel {
                items: seq!["Character Editor"@, "Combat Tracker"@],
                selected: 0,
            }),
    {
        let mut items: Vec<String> = Vec::new();
        items.push(String::from_str("Character Editor"));
        items.push(String::from_str("Combat Tracker"));
        assert(texts(items@) =~= seq!["Character Editor"@, "Combat Tracker"@]);
        MainMenu { items, selected: 0 }
    }

    /// A menu of `items` with the first selected, or `None` where `items` is
    /// empty: a menu has at least one item.
    pub fn with_items(items: Vec<String>) -> (r: Option<MainMenu>)
        ensures
            items@.len() == 0 <==> r is None,
            r matches Some(menu) ==> menu@ == (MenuModel { items: texts(items@), selected: 0 }),
    {
        if items.len() == 0 {
            None
        } else {
            Some(MainMenu { items, selected: 0 })
        }
    }

    /// The number of items.
    pub fn len(&self) -> (n: usize)
        ensures
            n == self@.items.len(),
            n > 0,
    {
        proof {
            use_type_invariant(self);
        }
        self.items.len()
    }

    /// The index of the selected item.
    pub fn selected(&self) -> (i: usize)
        ensures
            i == self@.selected,
            i < self@.items.len(),
    {
        proof {
            use_type_invariant(self);
        }
        self.selected
    }

    /// Moves the selection to the next item, from the last to the first.
    pub fn next(&mut self)
        ensures
            final(self)@ == old(self)@.after(Event::Next),
            final(self)@.selected < final(self)@.items.len(),
    {
        proof {
            use_type_invariant(&*self);
        }
        let i = if self.selected >= self.items.len() - 1 {
            0
        } else {
            self.selected + 1
        };
        proof {
            let n = self.items@.len() as int;
            let s = self.selected as int;
            if s + 1 == n {
                assert((s + 1) % n == 0) by (nonlinear_arith)
                    requires
                        s + 1 == n,
                        n > 0,
                ;
            } else {
                assert((s + 1) % n == s + 1) by (nonlinear_arith)
                    requires
                        0 <= s + 1 < n,
                ;
            }
        }
        self.selected = i;
    }

    /// Moves the selection to the previous item, from the first to the last.
    pub fn previous(&mut self)
        ensures
            final(self)@ == old(self)@.after(Event::Previous),
            final(self)@.selected < final(self)@.items.len(),
    {
        proof {
            use_type_invariant(&*self);
        }
        let i = if self.selected == 0 {
            self.items.len() - 1
        } else {
            self.selected - 1
        };
        proof {
            let n = self.items@.len() as int;
            let s = self.selected as int;
            if s == 0 {
                assert((s + n - 1) % n == n - 1) by (nonlinear_arith)
                    requires
                        s == 0,
                        n > 0,
                ;
            } else {
                assert((s + n - 1) % n == s - 1) by (nonlinear_arith)
                    requires
                        0 < s < n,
                ;
            }
        }
        self.selected = i;
    }

    /// The event that `key_event` stands for in the menu, if any.
    pub fn handle_key_event(&self, key_event: KeyEvent) -> (sent: Vec<Event>)
        ensures
            sent@ == optional(menu_key_event(key_event)),
    {
        let mut sent: Vec<Event> = Vec::new();
        if key_event.kind == KeyEventKind::Press {
            match key_event.code {
                KeyCode::Esc => sent.push(Event::Exit),
                KeyCode::Up => sent.push(Event::Previous),
                KeyCode::Down => sent.push(Event::Next),
                KeyCode::Enter => sent.push(Event::Submit),
                _ => {},
            }
        }
        assert(sent@ =~= optional(menu_key_event(key_event)));
        sent
    }
}

impl AppView for MainMenu {
    /// The title, the items and the selection.
    fn draw(&self) -> (scene: Scene)
        ensures
            scene@ == self@.scene(),
    {
        let items = self.items.clone();
        assert(texts(items@) =~= texts(self.items@));
        Scene::MainMenu {
            title: String::from_str("Main Menu"),
            items,
            selected: self.selected,
            highlight_symbol: String::from_str(">"),
        }
    }

    /// `Next` and `Previous` move the selection in a cycle. `Submit` asks for
    /// the view that belongs to the selected item. A key is turned into
    /// the event it stands for, which is sent rather than acted on. Every
    /// other event is ignored.
    fn handle_event(&mut self, event: Event) -> (sent: Vec<Event>)
        ensures
            final(self)@ == old(self)@.after(event),
            sent@ == old(self)@.sends(event),
            final(self)@.selected < final(self)@.items.len(),
    {
        proof {
            use_type_invariant(&*self);
        }
        match event {
            Event::Next => {
                self.next();
                Vec::new()
            },
            Event::Previous => {
                self.previous();
                Vec::new()
            },
            Event::Submit => {
                let mut sent: Vec<Event> = Vec::new();
                if self.selected == 0 {
                    sent.push(Event::ChangeView(app::View::CharacterEditor));
                } else if self.selected == 1 {
                    sent.push(Event::ChangeView(app::View::CombatTracker));
                }
                assert(sent@ =~= old(self)@.sends(event));
                sent
            },
            Event::Input(key_event) => self.handle_key_event(key_event),
            _ => Vec::new(),
        }
    }
}

} // verus!
