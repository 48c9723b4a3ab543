//! The character editor: a line of input that is read as a command when
//! Enter is pressed, and a line of feedback.
//!
//! A command line that cannot be read leaves its reason in the feedback
//! line, whether the lexer or the parser refused it. Either way the input
//! line is cleared and no event is sent.

use vstd::prelude::*;
use vstd::string::StringExecFns;
use crate::app::Event;
use crate::chars::{ascii_punctuation, ascii_upper, char_is_alphanumeric};
use crate::input::{KeyCode, KeyEvent, KeyEventKind};
use crate::parser::character_editor_lexer::{
    CharacterEditorLexer, CharacterEditorLexerError, CharacterEditorToken, LexErrorModel,
    TokenModel, classified_line, lex_line, lexed_view,
};
use crate::parser::character_editor_parser::{CharacterEditorParser, parse_spec};
use crate::parser::lexer::Lexer;
use crate::parser::parser_trait::Parser;
use crate::views::app_view::AppView;
use crate::views::scene::{Scene, SceneModel};

verus! {

/// The character editor.
pub struct CharacterEditor {
    input: String,
    feedback: String,
    lexer: CharacterEditorLexer,
    parser: CharacterEditorParser,
}

/// The character editor as a mathematical value.
pub struct EditorModel {
    pub input: Seq<char>,
    pub feedback: Seq<char>,
}

/// Whether a character key adds to the input line: an alphanumeric
/// character does, a space does, and ASCII punctuation does.
pub open spec fn printable(c: char, alphanumeric: bool) -> bool {
    alphanumeric || c == ' ' || ascii_punctuation(c)
}

/// The character that the key of `c` types, with or without Shift.
pub open spec fn typed(c: char, shift: bool) -> char {
    if shift {
        ascii_upper(c)
    } else {
        c
    }
}

impl EditorModel {
    /// The editor after the key of `c` was pressed without Control, where
    /// `alphanumeric` says whether `c` is alphanumeric.
    pub open spec fn after_char(self, c: char, alphanumeric: bool, shift: bool) -> EditorModel {
        if printable(c, alphanumeric) {
            EditorModel { input: self.input.push(typed(c, shift)), feedback: self.feedback }
        } else {
            self
        }
    }

    /// The editor after Backspace.
    pub open spec fn after_backspace(self) -> EditorModel {
        if self.input.len() > 0 {
            EditorModel { input: self.input.drop_last(), feedback: self.feedback }
        } else {
            self
        }
    }

    /// The editor after the input line was submitted and lexing it gave
    /// `lexed`: the input line is empty, and the feedback line tells of the
    /// error if there was one.
    pub open spec fn after_submit(
        self,
        lexed: Result<Seq<TokenModel>, LexErrorModel>,
    ) -> EditorModel {
        EditorModel {
            input: Seq::empty(),
            feedback: match lexed {
                Err(e) => e.message(),
                Ok(tokens) => match parse_spec(tokens) {
                    Err(e) => e.message(),
                    Ok(_) => self.feedback,
                },
            },
        }
    }

    /// The events that submitting sends where lexing gave `lexed`: the event
    /// of the command, where the line spells one.
    pub open spec fn submit_sends(lexed: Result<Seq<TokenModel>, LexErrorModel>) -> Seq<Event> {
        match lexed {
            Err(_) => Seq::empty(),
            Ok(tokens) => match parse_spec(tokens) {
                Err(_) => Seq::empty(),
                Ok(event) => seq![event],
            },
        }
    }

    /// What lexing the input line gives.
    pub open spec fn lexed(self) -> Result<Seq<TokenModel>, LexErrorModel> {
        lex_line(self.input, classified_line(self.input))
    }

    /// The editor after `key`. Only a press counts.
    pub open spec fn after_key(self, key: KeyEvent) -> EditorModel {
        if key.kind != KeyEventKind::Press {
            self
        } else {
            match key.code {
                KeyCode::Char(c) => {
                    if key.modifiers.control {
                        self
                    } else {
                        self.after_char(c, char_is_alphanumeric(c), key.modifiers.shift)
                    }
                },
                KeyCode::Backspace => self.after_backspace(),
                KeyCode::Enter => self.after_submit(self.lexed()),
                _ => self,
            }
        }
    }

    /// The events that the editor sends on `key`.
    pub open spec fn key_sends(self, key: KeyEvent) -> Seq<Event> {
        if key.kind != KeyEventKind::Press {
            Seq::empty()
        } else {
            match key.code {
                KeyCode::Esc => seq![Event::Exit],
                KeyCode::Char(c) => {
                    if key.modifiers.control && c == 'z' {
                        seq![Event::Undo]
                    } else {
                        Seq::empty()
                    }
                },
                KeyCode::Enter => EditorModel::submit_sends(self.lexed()),
                _ => Seq::empty(),
            }
        }
    }

    /// The editor after it has consumed `event`: only a key changes it.
    pub open spec fn after(self, event: Event) -> EditorModel {
        match event {
            Event::Input(key) => self.after_key(key),
            _ => self,
        }
    }

    /// The events that the editor sends when it consumes `event`.
    pub open spec fn sends(self, event: Event) -> Seq<Event> {
        match event {
            Event::Input(key) => self.key_sends(key),
            _ => Seq::empty(),
        }
    }

    /// What the editor shows: the feedback line only where there is
    /// feedback.
    pub open spec fn scene(self) -> SceneModel {
        SceneModel::CharacterEditor {
            title: "Character Editor"@,
            feedback: if self.feedback.len() == 0 {
                None
            } else {
                Some(self.feedback)
            },
            input: self.input,
        }
    }
}

impl View for CharacterEditor {
    type V = EditorModel;

    closed spec fn view(&self) -> EditorModel {
        EditorModel { input: self.input@, feedback: self.feedback@ }
    }
}

impl CharacterEditor {
    /// An editor with an empty input line and no feedback.
    pub fn new() -> (editor: CharacterEditor)
        ensures
            editor@ == (EditorModel { input: Seq::empty(), feedback: Seq::empty() }),
    {
        CharacterEditor {
            input: String::new(),
            feedback: String::new(),
            lexer: CharacterEditorLexer {  },
            parser: CharacterEditorParser {  },
        }
    }

    /// The input line.
    pub fn input(&self) -> (text: &str)
        ensures
            text@ == self@.input,
    {
        self.input.as_str()
    }

    /// The feedback line; empty where there is no feedback.
    pub fn feedback(&self) -> (text: &str)
        ensures
            text@ == self@.feedback,
    {
        self.feedback.as_str()
    }

    /// Puts the text of `error` into the feedback line.
    pub fn handle_lexer_error(&mut self, error: CharacterEditorLexerError)
        ensures
            final(self)@ == (EditorModel {
                input: old(self)@.input,
                feedback: error@.message(),
            }),
    {
        self.feedback = error.message();
    }

    /// Adds the character that the key of `c` types to the input line, where
    /// `c` is printable. `alphanumeric` says whether `c` is alphanumeric.
    pub fn type_char(&mut self, c: char, alphanumeric: bool, shift: bool)
        ensures
            final(self)@ == old(self)@.after_char(c, alphanumeric, shift),
    {
        if alphanumeric || c == ' ' || c.is_ascii_punctuation() {
            self.input.push(
                if shift {
                    c.to_ascii_uppercase()
                } else {
                    c
                },
            );
        }
    }

    /// Concludes a submission whose input line gave `lexed`: parses the
    /// tokens and returns the event they spell, or leaves the reason why
    /// there is none in the feedback line. The input line is cleared either
    /// way.
    pub fn submit(
        &mut self,
        lexed: Result<Vec<CharacterEditorToken>, CharacterEditorLexerError>,
    ) -> (sent: Vec<Event>)
        ensures
            final(self)@ == old(self)@.after_submit(lexed_view(lexed)),
            sent@ == EditorModel::submit_sends(lexed_view(lexed)),
    {
        let mut sent: Vec<Event> = Vec::new();
        match lexed {
            Ok(tokens) => {
                match self.parser.parse(tokens) {
                    Ok(event) => {
                        sent.push(event);
                    },
                    Err(error) => {
                        self.feedback = error.message();
                    },
                }
            },
            Err(error) => {
                self.handle_lexer_error(error);
            },
        }
        self.input.clear();
        assert(sent@ =~= EditorModel::submit_sends(lexed_view(lexed)));
        sent
    }

    /// Reacts to a key. Esc asks to leave, Control with `z` asks to undo, a
    /// printable character is added to the input line, Backspace removes the
    /// last character, and Enter submits the input line.
    pub fn handle_key_event(&mut self, key_event: KeyEvent) -> (sent: Vec<Event>)
        ensures
            final(self)@ == old(self)@.after_key(key_event),
            sent@ == old(self)@.key_sends(key_event),
    {
        let mut sent: Vec<Event> = Vec::new();
        if key_event.kind == KeyEventKind::Press {
            match key_event.code {
                KeyCode::Esc => {
                    sent.push(Event::Exit);
                },
                KeyCode::Char(c) => {
                    if key_event.modifiers.control {
                        if c == 'z' {
                            sent.push(Event::Undo);
                        }
                    } else {
                        self.type_char(c, c.is_alphanumeric(), key_event.modifiers.shift);
                    }
                },
                KeyCode::Backspace => {
                    let _ = self.input.pop();
                },
                KeyCode::Enter => {
                    let lexed = self.lexer.lex(self.input.clone());
                    sent = self.submit(lexed);
                },
                _ => {},
            }
        }
        assert(sent@ =~= old(self)@.key_sends(key_event));
        sent
    }
}

impl AppView for CharacterEditor {
    /// The title, the feedback line where there is feedback, and the input
    /// line.
    fn draw(&self) -> (scene: Scene)
        ensures
            scene@ == self@.scene(),
    {
        let feedback = if self.feedback.as_str().is_empty() {
            None
        } else {
            Some(self.feedback.clone())
        };
        Scene::CharacterEditor {
            title: String::from_str("Character Editor"),
            feedback,
            input: self.input.clone(),
        }
    }

    /// Reacts to a key; every other event is ignored.
    fn handle_event(&mut self, event: Event) -> (sent: Vec<Event>)
        ensures
            final(self)@ == old(self)@.after(event),
            sent@ == old(self)@.sends(event),
    {
        if let Event::Input(key_event) = event {
            self.handle_key_event(key_event)
        } else {
            Vec::new()
        }
    }
}

} // verus!
