//! What a view asks to have drawn.
//!
//! A scene names the parts of a screen: a titled bordered region, and in it
//! a list with one item selected, or a line of feedback and a line of input.
//! Where on the terminal the parts go, and in which colours, is left to
//! whoever renders the scene.

use vstd::prelude::*;

verus! {

/// A description of one screen.
#[derive(Debug, PartialEq, Eq)]
pub enum Scene {
    /// A titled region around a list, with the item at `selected` marked by
    /// `highlight_symbol`.
    MainMenu { title: String, items: Vec<String>, selected: usize, highlight_symbol: String },
    /// A titled region, the feedback line where there is feedback to show,
    /// and the input line.
    CharacterEditor { title: String, feedback: Option<String>, input: String },
    /// A titled region.
    CombatTracker { title: String },
}

/// A scene as a mathematical value.
pub enum SceneModel {
    MainMenu {
        title: Seq<char>,
        items: Seq<Seq<char>>,
        selected: nat,
        highlight_symbol: Seq<char>,
    },
    CharacterEditor { title: Seq<char>, feedback: Option<Seq<char>>, input: Seq<char> },
    CombatTracker { title: Seq<char> },
}

/// The texts of `items`.
pub open spec fn texts(items: Seq<String>) -> Seq<Seq<char>> {
    items.map_values(|s: String| s@)
}

impl View for Scene {
    type V = SceneModel;

    open spec fn view(&self) -> SceneModel {
        match self {
            Scene::MainMenu { title, items, selected, highlight_symbol } => SceneModel::MainMenu {
                title: title@,
                items: texts(items@),
                selected: *selected as nat,
                highlight_symbol: highlight_symbol@,
            },
            Scene::CharacterEditor { title, feedback, input } => SceneModel::CharacterEditor {
                title: title@,
                feedback: match feedback {
                    Some(text) => Some(text@),
                    None => None,
                },
                input: input@,
            },
            Scene::CombatTracker { title } => SceneModel::CombatTracker { title: title@ },
        }
    }
}

} // verus!
