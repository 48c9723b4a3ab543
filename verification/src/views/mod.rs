//! The views of the application. Each draws itself and consumes events.

pub mod app_view;
pub mod character_editor;
pub mod combat_tracker;
pub mod main_menu;
pub mod scene;

pub use app_view::AppView;
pub use character_editor::CharacterEditor;
pub use combat_tracker::CombatTracker;
pub use main_menu::MainMenu;
pub use scene::Scene;
