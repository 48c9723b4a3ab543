use std::collections::VecDeque;

use tabletop_tui::app::{App, Event, View};
use tabletop_tui::input::{KeyCode, KeyEvent};
use tabletop_tui::views::Scene;

fn press(code: KeyCode) -> Event {
    Event::Input(KeyEvent::press(code))
}

/// Runs the loop on a channel that holds `keys`: each event is consumed in
/// the order in which it arrived, and what a view sends goes to the back.
fn run(app: &mut App, keys: Vec<Event>) {
    let mut channel: VecDeque<Event> = keys.into();
    while !app.exit {
        let sent = app.receive(channel.pop_front());
        channel.extend(sent);
    }
}

/// As `run`, but stops when the channel is empty.
fn feed(app: &mut App, keys: Vec<Event>) {
    let mut channel: VecDeque<Event> = keys.into();
    while let Some(event) = channel.pop_front() {
        let sent = app.handle_event(event);
        channel.extend(sent);
    }
}

#[test]
fn app_starts_in_the_main_menu() {
    let app = App::new();
    assert!(!app.exit);
    assert_eq!(app.view, View::MainMenu);
    assert_eq!(app.main_menu.selected(), 0);
    assert_eq!(app.character_editor.input(), "");
}

#[test]
fn down_and_enter_open_the_combat_tracker() {
    let mut app = App::new();
    feed(&mut app, vec![press(KeyCode::Down), press(KeyCode::Enter)]);
    assert_eq!(app.view, View::CombatTracker);
    assert_eq!(app.main_menu.selected(), 1);
    assert!(!app.exit);
}

#[test]
fn down_and_enter_one_key_at_a_time() {
    let mut app = App::new();
    feed(&mut app, vec![press(KeyCode::Down)]);
    assert_eq!(app.view, View::MainMenu);
    assert_eq!(app.main_menu.selected(), 1);
    feed(&mut app, vec![press(KeyCode::Enter)]);
    assert_eq!(app.view, View::CombatTracker);
}

#[test]
fn enter_opens_the_character_editor() {
    let mut app = App::new();
    feed(&mut app, vec![press(KeyCode::Enter)]);
    assert_eq!(app.view, View::CharacterEditor);
}

#[test]
fn up_wraps_to_the_last_item() {
    let mut app = App::new();
    feed(&mut app, vec![press(KeyCode::Up), press(KeyCode::Enter)]);
    assert_eq!(app.view, View::CombatTracker);
}

#[test]
fn a_key_is_sent_on_before_it_acts() {
    let mut app = App::new();
    assert_eq!(app.handle_event(press(KeyCode::Down)), vec![Event::Next]);
    assert_eq!(app.main_menu.selected(), 0);
    assert_eq!(app.handle_event(Event::Next), vec![]);
    assert_eq!(app.main_menu.selected(), 1);
    assert_eq!(app.handle_event(press(KeyCode::Enter)), vec![Event::Submit]);
    assert_eq!(app.handle_event(Event::Submit), vec![Event::ChangeView(View::CombatTracker)]);
    assert_eq!(app.view, View::MainMenu);
    assert_eq!(app.handle_event(Event::ChangeView(View::CombatTracker)), vec![]);
    assert_eq!(app.view, View::CombatTracker);
}

#[test]
fn exit_leads_back_to_the_menu_first() {
    let mut app = App::new();
    app.handle_event(Event::ChangeView(View::CombatTracker));
    assert_eq!(app.handle_event(Event::Exit), vec![]);
    assert_eq!(app.view, View::MainMenu);
    assert!(!app.exit);
    assert_eq!(app.handle_event(Event::Exit), vec![]);
    assert_eq!(app.view, View::MainMenu);
    assert!(app.exit);
}

#[test]
fn escape_twice_ends_the_application_from_the_editor() {
    let mut app = App::new();
    feed(&mut app, vec![press(KeyCode::Enter)]);
    assert_eq!(app.view, View::CharacterEditor);
    feed(&mut app, vec![press(KeyCode::Esc)]);
    assert_eq!(app.view, View::MainMenu);
    assert!(!app.exit);
    feed(&mut app, vec![press(KeyCode::Esc)]);
    assert!(app.exit);
}

#[test]
fn change_view_is_unconditional() {
    let mut app = App::new();
    for view in [View::CombatTracker, View::CharacterEditor, View::MainMenu, View::MainMenu] {
        assert_eq!(app.handle_event(Event::ChangeView(view)), vec![]);
        assert_eq!(app.view, view);
        assert!(!app.exit);
    }
}

#[test]
fn events_go_to_the_active_view_only() {
    let mut app = App::new();
    app.handle_event(Event::ChangeView(View::CharacterEditor));
    assert_eq!(app.handle_event(Event::Next), vec![]);
    assert_eq!(app.main_menu.selected(), 0);
    assert_eq!(app.handle_event(press(KeyCode::Char('x'))), vec![]);
    assert_eq!(app.character_editor.input(), "x");
    app.handle_event(Event::ChangeView(View::CombatTracker));
    assert_eq!(app.handle_event(press(KeyCode::Char('y'))), vec![]);
    assert_eq!(app.character_editor.input(), "x");
    assert_eq!(app.handle_event(Event::Next), vec![]);
    assert_eq!(app.main_menu.selected(), 0);
}

#[test]
fn the_exit_command_leaves_the_editor() {
    let mut app = App::new();
    feed(&mut app, vec![press(KeyCode::Enter)]);
    assert_eq!(app.view, View::CharacterEditor);
    let mut keys: Vec<Event> = "exit".chars().map(|c| press(KeyCode::Char(c))).collect();
    keys.push(press(KeyCode::Enter));
    feed(&mut app, keys);
    assert_eq!(app.view, View::MainMenu);
    assert_eq!(app.character_editor.input(), "");
    assert!(!app.exit);
}

#[test]
fn a_closed_channel_counts_as_exit() {
    let mut app = App::new();
    assert_eq!(app.receive(None), vec![]);
    assert!(app.exit);
    let mut app = App::new();
    app.handle_event(Event::ChangeView(View::CombatTracker));
    assert_eq!(app.receive(None), vec![]);
    assert_eq!(app.view, View::MainMenu);
    assert!(!app.exit);
    assert_eq!(app.receive(None), vec![]);
    assert!(app.exit);
}

#[test]
fn receive_hands_the_event_on() {
    let mut app = App::new();
    assert_eq!(app.receive(Some(press(KeyCode::Down))), vec![Event::Next]);
    assert_eq!(app.receive(Some(Event::Next)), vec![]);
    assert_eq!(app.main_menu.selected(), 1);
}

#[test]
fn the_loop_ends_when_the_channel_runs_dry() {
    let mut app = App::new();
    run(&mut app, vec![press(KeyCode::Down), press(KeyCode::Enter)]);
    assert!(app.exit);
    assert_eq!(app.view, View::MainMenu);
    assert_eq!(app.main_menu.selected(), 1);
}

#[test]
fn app_draws_the_active_view() {
    let mut app = App::new();
    assert_eq!(
        app.draw(),
        Scene::MainMenu {
            title: "Main Menu".to_string(),
            items: vec!["Character Editor".to_string(), "Combat Tracker".to_string()],
            selected: 0,
            highlight_symbol: ">".to_string(),
        }
    );
    app.handle_event(Event::ChangeView(View::CombatTracker));
    assert_eq!(app.draw(), Scene::CombatTracker { title: "Combat Tracker".to_string() });
    app.handle_event(Event::ChangeView(View::CharacterEditor));
    app.handle_event(press(KeyCode::Char('h')));
    assert_eq!(
        app.draw(),
        Scene::CharacterEditor {
            title: "Character Editor".to_string(),
            feedback: None,
            input: "h".to_string(),
        }
    );
}

#[test]
fn app_draws_the_same_scene_twice() {
    let mut app = App::new();
    feed(&mut app, vec![press(KeyCode::Down)]);
    let first = app.draw();
    let second = app.draw();
    assert_eq!(first, second);
    assert_eq!(app.main_menu.selected(), 1);
    assert_eq!(app.view, View::MainMenu);
}

#[test]
fn keys_behind_a_pending_change_still_go_to_the_old_view() {
    // Enter sends Submit to the back of the channel, behind the key that is
    // already there, so that key reaches the menu and not the editor.
    let mut app = App::new();
    feed(&mut app, vec![press(KeyCode::Enter), press(KeyCode::Char('x'))]);
    assert_eq!(app.view, View::CharacterEditor);
    assert_eq!(app.character_editor.input(), "");
}
