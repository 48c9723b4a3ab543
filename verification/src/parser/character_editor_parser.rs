//! The parser of the character editor's command line.
//!
//! A command line is a command word followed by its arguments. The word is
//! looked up in the command table without regard to ASCII case. Each command
//! consumes as many arguments as its arity says; tokens beyond them are an
//! error that carries them.

use vstd::prelude::*;
use vstd::string::StringExecFns;
use crate::app::Event;
use crate::chars::ascii_lowercase;
use crate::parser::character_editor_lexer::{CharacterEditorToken, TokenModel, tokens_view};
use crate::parser::parser_trait::Parser;

verus! {

/// The parser of the character editor's command line.
pub struct CharacterEditorParser {}

/// Why a token sequence spells no command.
#[derive(Debug, PartialEq, Eq)]
pub enum CharacterEditorParserError {
    /// The first token is this number, where a command word must stand.
    FirstTokenCannotBeNumber(i8),
    /// There is no token at all.
    NoTokensProvided,
    /// The first token is this word, which names no command.
    UnknownCommand(String),
    /// These tokens follow the last argument that the command consumes.
    ExtraneousArgumentsProvided(Vec<CharacterEditorToken>),
}

/// A parse error as a mathematical value.
pub enum ParseErrorModel {
    FirstTokenCannotBeNumber(int),
    NoTokensProvided,
    UnknownCommand(Seq<char>),
    ExtraneousArgumentsProvided(Seq<TokenModel>),
}

impl View for CharacterEditorParserError {
    type V = ParseErrorModel;

    open spec fn view(&self) -> ParseErrorModel {
        match self {
            CharacterEditorParserError::FirstTokenCannotBeNumber(n) => {
                ParseErrorModel::FirstTokenCannotBeNumber(*n as int)
            },
            CharacterEditorParserError::NoTokensProvided => ParseErrorModel::NoTokensProvided,
            CharacterEditorParserError::UnknownCommand(name) => ParseErrorModel::UnknownCommand(
                name@,
            ),
            CharacterEditorParserError::ExtraneousArgumentsProvided(rest) => {
                ParseErrorModel::ExtraneousArgumentsProvided(tokens_view(rest@))
            },
        }
    }
}

impl ParseErrorModel {
    /// The text that tells the user of the error.
    pub open spec fn message(self) -> Seq<char> {
        match self {
            ParseErrorModel::FirstTokenCannotBeNumber(_) => "A command cannot start with a number"@,
            ParseErrorModel::NoTokensProvided => "No command was entered"@,
            ParseErrorModel::UnknownCommand(name) => "Unknown command: "@ + name,
            ParseErrorModel::ExtraneousArgumentsProvided(_) => "Too many arguments for the command"@,
        }
    }
}

impl CharacterEditorParserError {
    /// The text that tells the user of the error.
    pub fn message(&self) -> (text: String)
        ensures
            text@ == self@.message(),
    {
        match self {
            CharacterEditorParserError::FirstTokenCannotBeNumber(_) => String::from_str(
                "A command cannot start with a number",
            ),
            CharacterEditorParserError::NoTokensProvided => String::from_str(
                "No command was entered",
            ),
            CharacterEditorParserError::UnknownCommand(name) => {
                let mut text = String::from_str("Unknown command: ");
                text.append(name.as_str());
                text
            },
            CharacterEditorParserError::ExtraneousArgumentsProvided(_) => String::from_str(
                "Too many arguments for the command",
            ),
        }
    }
}

/// The outcome of parsing as a mathematical value.
pub open spec fn parsed_view(r: Result<Event, CharacterEditorParserError>) -> Result<
    Event,
    ParseErrorModel,
> {
    match r {
        Ok(event) => Ok(event),
        Err(e) => Err(e@),
    }
}

/// An entry of the command table.
#[derive(Debug, Clone, Copy, PartialEq, Eq, Structural)]
pub enum Command {
    Exit,
}

impl Command {
    /// The word that selects the command, in lower case.
    pub open spec fn name(self) -> Seq<char> {
        match self {
            Command::Exit => "exit"@,
        }
    }

    /// How many arguments the command consumes.
    pub open spec fn arity(self) -> nat {
        match self {
            Command::Exit => 0,
        }
    }

    /// The event that the command stands for.
    pub open spec fn event(self) -> Event {
        match self {
            Command::Exit => Event::Exit,
        }
    }

    /// The command that `word` selects: the one whose name equals `word` up
    /// to ASCII case.
    pub open spec fn named(word: Seq<char>) -> Option<Command> {
        if ascii_lowercase(word) == ascii_lowercase(Command::Exit.name()) {
            Some(Command::Exit)
        } else {
            None
        }
    }

    /// How many arguments the command consumes.
    pub fn argument_count(self) -> (n: usize)
        ensures
            n == self.arity(),
    {
        match self {
            Command::Exit => 0,
        }
    }

    /// The event that the command stands for.
    pub fn to_event(self) -> (e: Event)
        ensures
            e == self.event(),
    {
        match self {
            Command::Exit => Event::Exit,
        }
    }

    /// The command that `word` selects, if any.
    pub fn lookup(word: &str) -> (r: Option<Command>)
        ensures
            r == Command::named(word@),
    {
        if word.eq_ignore_ascii_case("exit") {
            Some(Command::Exit)
        } else {
            None
        }
    }
}

/// What the command word `word` at the head of `tokens` gives: the event of
/// the command it selects, unless `tokens` holds more than the word and the
/// arguments that the command consumes.
pub open spec fn map_event_spec(word: Seq<char>, tokens: Seq<TokenModel>) -> Result<
    Event,
    ParseErrorModel,
> {
    match Command::named(word) {
        None => Err(ParseErrorModel::UnknownCommand(word)),
        Some(command) => {
            if tokens.len() > 1 + command.arity() {
                Err(
                    ParseErrorModel::ExtraneousArgumentsProvided(
                        tokens.subrange(1 + command.arity() as int, tokens.len() as int),
                    ),
                )
            } else {
                Ok(command.event())
            }
        },
    }
}

/// What `tokens` spell.
pub open spec fn parse_spec(tokens: Seq<TokenModel>) -> Result<Event, ParseErrorModel> {
    if tokens.len() == 0 {
        Err(ParseErrorModel::NoTokensProvided)
    } else {
        match tokens[0] {
            TokenModel::Number(n) => Err(ParseErrorModel::FirstTokenCannotBeNumber(n)),
            TokenModel::Word(word) => map_event_spec(word, tokens),
        }
    }
}

impl CharacterEditorParser {
    /// The event of the command that `command_specifier` selects, where
    /// `tokens` is the whole command line, the command word included.
    pub fn map_event(command_specifier: String, tokens: Vec<CharacterEditorToken>) -> (r: Result<
        Event,
        CharacterEditorParserError,
    >)
        ensures
            parsed_view(r) == map_event_spec(command_specifier@, tokens_view(tokens@)),
    {
        match Command::lookup(command_specifier.as_str()) {
            Some(command) => {
                let consumed = 1 + command.argument_count();
                if tokens.len() > consumed {
                    let ghost all = tokens@;
                    let mut tokens = tokens;
                    let rest = tokens.split_off(consumed);
                    assert(tokens_view(rest@) =~= tokens_view(all).subrange(
                        consumed as int,
                        all.len() as int,
                    ));
                    Err(CharacterEditorParserError::ExtraneousArgumentsProvided(rest))
                } else {
                    Ok(command.to_event())
                }
            },
            None => Err(CharacterEditorParserError::UnknownCommand(command_specifier)),
        }
    }
}

impl Parser<CharacterEditorToken, Event, CharacterEditorParserError> for CharacterEditorParser {
    /// The event that `tokens` spell, or why they spell none.
    fn parse(&self, tokens: Vec<CharacterEditorToken>) -> (r: Result<
        Event,
        CharacterEditorParserError,
    >)
        ensures
            parsed_view(r) == parse_spec(tokens_view(tokens@)),
    {
        if tokens.len() == 0 {
            return Err(CharacterEditorParserError::NoTokensProvided);
        }
        match &tokens[0] {
            CharacterEditorToken::Word(command) => {
                let command_specifier = command.clone();
                CharacterEditorParser::map_event(command_specifier, tokens)
            },
            CharacterEditorToken::Number(number) => {
                Err(CharacterEditorParserError::FirstTokenCannotBeNumber(*number))
            },
        }
    }
}

} // verus!
