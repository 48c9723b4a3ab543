//! The command language of the character editor: a lexer from a line of text
//! to tokens, and a parser from tokens to an application event.

pub mod character_editor_lexer;
pub mod character_editor_parser;
pub mod lexer;
pub mod parser_trait;

pub use character_editor_lexer::CharacterEditorLexer;
pub use character_editor_parser::CharacterEditorParser;
pub use lexer::Lexer;
pub use parser_trait::Parser;
