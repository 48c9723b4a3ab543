//! The lexer of the character editor's command line.
//!
//! A line is scanned from left to right with one character of lookahead.
//! White space separates chunks and produces nothing. A chunk is a word (an
//! alphabetic character followed by alphanumeric characters and `_`) or a
//! number (decimal digits, with `-` directly before them for a negative
//! one). A chunk ends at white space or at the end of the line; any other
//! character there, and any character that can start no chunk, is a lexical
//! error, and scanning stops at the first one. A number that does not fit in
//! eight bits produces no token and no error.
//!
//! Which characters are white space, alphabetic or alphanumeric is decided by
//! the standard library. `classify` asks it once per character, and `scan`
//! works on the answers, so that `scan` is a function of plain values.

use vstd::prelude::*;
use vstd::slice::slice_subrange;
use vstd::string::StrSliceExecFns;
use vstd::string::StringExecFns;
use itertools::Itertools;
use crate::chars::{ascii_digit, char_is_alphabetic, char_is_alphanumeric, char_is_whitespace};
use crate::parser::lexer::Lexer;
use crate::text::{all_ascii_digits, decimal_value, parse_i8};

verus! {

/// The lexer of the character editor's command line.
pub struct CharacterEditorLexer {}

/// A lexical error.
#[derive(Debug, PartialEq, Eq)]
pub enum CharacterEditorLexerError {
    /// `unexpected_char` stands where no chunk may start or go on; `input` is
    /// the line it was found in, where that is known.
    UnexpectedCharacter { input: Option<String>, unexpected_char: char },
}

/// A token of the command line.
#[derive(Debug, PartialEq, Eq)]
pub enum CharacterEditorToken {
    Word(String),
    Number(i8),
}

/// A token as a mathematical value.
pub enum TokenModel {
    Word(Seq<char>),
    Number(int),
}

/// A lexical error as a mathematical value.
pub struct LexErrorModel {
    pub input: Option<Seq<char>>,
    pub unexpected_char: char,
}

impl View for CharacterEditorToken {
    type V = TokenModel;

    open spec fn view(&self) -> TokenModel {
        match self {
            CharacterEditorToken::Word(text) => TokenModel::Word(text@),
            CharacterEditorToken::Number(value) => TokenModel::Number(*value as int),
        }
    }
}

impl View for CharacterEditorLexerError {
    type V = LexErrorModel;

    open spec fn view(&self) -> LexErrorModel {
        match self {
            CharacterEditorLexerError::UnexpectedCharacter { input, unexpected_char } => {
                LexErrorModel {
                    input: match input {
                        Some(line) => Some(line@),
                        None => None,
                    },
                    unexpected_char: *unexpected_char,
                }
            },
        }
    }
}

/// The text that tells the user of `unexpected_char` in the line `input`: the
/// character between single quotes and the line in its debug form, escapes
/// and all, inside a sentence.
pub uninterp spec fn unexpected_character_text(
    unexpected_char: char,
    input: Option<Seq<char>>,
) -> Seq<char>;

impl LexErrorModel {
    /// The text that tells the user of the error.
    pub open spec fn message(self) -> Seq<char> {
        unexpected_character_text(self.unexpected_char, self.input)
    }
}

/// The tokens of `tokens` as mathematical values.
pub open spec fn tokens_view(tokens: Seq<CharacterEditorToken>) -> Seq<TokenModel> {
    tokens.map_values(|t: CharacterEditorToken| t@)
}

/// The outcome of lexing as a mathematical value.
pub open spec fn lexed_view(
    r: Result<Vec<CharacterEditorToken>, CharacterEditorLexerError>,
) -> Result<Seq<TokenModel>, LexErrorModel> {
    match r {
        Ok(tokens) => Ok(tokens_view(tokens@)),
        Err(e) => Err(e@),
    }
}

/// A character together with the classes that the scanner asks for.
#[derive(Debug, Clone, Copy, PartialEq, Eq)]
pub struct ClassifiedChar {
    pub ch: char,
    pub whitespace: bool,
    pub alphabetic: bool,
    pub alphanumeric: bool,
}

/// `c` with its classes as the standard library gives them.
pub open spec fn classified(c: char) -> ClassifiedChar {
    ClassifiedChar {
        ch: c,
        whitespace: char_is_whitespace(c),
        alphabetic: char_is_alphabetic(c),
        alphanumeric: char_is_alphanumeric(c),
    }
}

/// The characters of `line`, each with its classes.
pub open spec fn classified_line(line: Seq<char>) -> Seq<ClassifiedChar> {
    line.map_values(|c: char| classified(c))
}

/// The two kinds of run that a chunk is made of.
#[derive(Debug, Clone, Copy, PartialEq, Eq)]
pub enum RunClass {
    /// ASCII decimal digits.
    Digits,
    /// Alphanumeric characters and `_`.
    WordParts,
}

impl RunClass {
    /// Whether a run of this class may hold `g`.
    pub open spec fn admits(self, g: ClassifiedChar) -> bool {
        match self {
            RunClass::Digits => ascii_digit(g.ch),
            RunClass::WordParts => g.alphanumeric || g.ch == '_',
        }
    }

    /// Whether a run of this class may hold `g`.
    pub fn accepts(&self, g: &ClassifiedChar) -> (r: bool)
        ensures
            r == self.admits(*g),
    {
        match self {
            RunClass::Digits => g.ch.is_ascii_digit(),
            RunClass::WordParts => g.alphanumeric || g.ch == '_',
        }
    }
}

/// Where the longest run of `class` that starts at `start` ends: the first
/// position from `start` on that holds no character of the class, or the
/// length of `s`.
pub open spec fn run_end(s: Seq<ClassifiedChar>, start: int, class: RunClass) -> int
    decreases s.len() - start,
{
    if 0 <= start < s.len() && class.admits(s[start]) {
        run_end(s, start + 1, class)
    } else {
        start
    }
}

/// The characters of `s` from `from` up to `to`.
pub open spec fn text_between(s: Seq<ClassifiedChar>, from: int, to: int) -> Seq<char> {
    Seq::new((to - from) as nat, |i: int| s[from + i].ch)
}

/// Whether a chunk may end at `end`: the line ends there, or white space
/// follows.
pub open spec fn chunk_closed(s: Seq<ClassifiedChar>, end: int) -> bool {
    end >= s.len() || s[end].whitespace
}

/// The tokens that a run of digits gives: the number it denotes, negated
/// where `negative`, or nothing where that number does not fit in eight
/// bits.
pub open spec fn number_tokens(digits: Seq<char>, negative: bool) -> Seq<TokenModel> {
    if digits.len() > 0 && decimal_value(digits) <= i8::MAX {
        seq![
            TokenModel::Number(
                if negative {
                    -(decimal_value(digits) as int)
                } else {
                    decimal_value(digits) as int
                },
            ),
        ]
    } else {
        Seq::empty()
    }
}

/// The chunk that starts at `pos`, a position that holds no white space:
/// where it ends and the tokens it gives. `None` where no chunk can start
/// with the character at `pos`.
pub open spec fn chunk_at(s: Seq<ClassifiedChar>, pos: int) -> Option<(int, Seq<TokenModel>)> {
    if s[pos].ch == '-' {
        if pos + 1 < s.len() && ascii_digit(s[pos + 1].ch) {
            let end = run_end(s, pos + 1, RunClass::Digits);
            Some((end, number_tokens(text_between(s, pos + 1, end), true)))
        } else {
            None
        }
    } else if ascii_digit(s[pos].ch) {
        let end = run_end(s, pos, RunClass::Digits);
        Some((end, number_tokens(text_between(s, pos, end), false)))
    } else if s[pos].alphabetic {
        let end = run_end(s, pos + 1, RunClass::WordParts);
        Some((end, seq![TokenModel::Word(text_between(s, pos, end))]))
    } else {
        None
    }
}

/// `tokens` before what `rest` holds, where `rest` is no error.
pub open spec fn prepend(tokens: Seq<TokenModel>, rest: Result<Seq<TokenModel>, char>) -> Result<
    Seq<TokenModel>,
    char,
> {
    match rest {
        Ok(more) => Ok(tokens + more),
        Err(c) => Err(c),
    }
}

/// The tokens of `s` from `pos` on, or the first character that is a lexical
/// error.
pub open spec fn lex_from(s: Seq<ClassifiedChar>, pos: int) -> Result<Seq<TokenModel>, char>
    decreases s.len() - pos,
{
    if pos < 0 || pos >= s.len() {
        Ok(Seq::empty())
    } else if s[pos].whitespace {
        lex_from(s, pos + 1)
    } else {
        match chunk_at(s, pos) {
            None => Err(s[pos].ch),
            Some((end, tokens)) => {
                if !chunk_closed(s, end) {
                    Err(s[end].ch)
                } else {
                    proof {
                        lemma_chunk_advances(s, pos);
                    }
                    prepend(tokens, lex_from(s, end))
                }
            },
        }
    }
}

/// What lexing the line `input` gives, where `glyphs` are its characters
/// with their classes.
pub open spec fn lex_line(input: Seq<char>, glyphs: Seq<ClassifiedChar>) -> Result<
    Seq<TokenModel>,
    LexErrorModel,
> {
    match lex_from(glyphs, 0) {
        Ok(tokens) => Ok(tokens),
        Err(c) => Err(LexErrorModel { input: Some(input), unexpected_char: c }),
    }
}

/// A run ends at or after its start and within the line, holds only
/// characters of its class, and is followed by none.
pub proof fn lemma_run_end(s: Seq<ClassifiedChar>, start: int, class: RunClass)
    requires
        0 <= start <= s.len(),
    ensures
        start <= run_end(s, start, class) <= s.len(),
        forall|i: int| start <= i < run_end(s, start, class) ==> class.admits(#[trigger] s[i]),
        run_end(s, start, class) < s.len() ==> !class.admits(s[run_end(s, start, class)]),
    decreases s.len() - start,
{
    if start < s.len() && class.admits(s[start]) {
        lemma_run_end(s, start + 1, class);
    }
}

/// The end of a run is the only position with the properties that
/// `lemma_run_end` states.
pub proof fn lemma_run_end_unique(s: Seq<ClassifiedChar>, start: int, end: int, class: RunClass)
    requires
        0 <= start <= end <= s.len(),
        forall|i: int| start <= i < end ==> class.admits(#[trigger] s[i]),
        end < s.len() ==> !class.admits(s[end]),
    ensures
        run_end(s, start, class) == end,
    decreases end - start,
{
    if start < end {
        lemma_run_end_unique(s, start + 1, end, class);
    }
}

/// A chunk ends after the position at which it starts, and within the line.
pub proof fn lemma_chunk_advances(s: Seq<ClassifiedChar>, pos: int)
    requires
        0 <= pos < s.len(),
    ensures
        chunk_at(s, pos) matches Some((end, _)) ==> pos < end <= s.len(),
{
    lemma_run_end(s, pos, RunClass::Digits);
    lemma_run_end(s, pos + 1, RunClass::Digits);
    lemma_run_end(s, pos + 1, RunClass::WordParts);
}

/// Trusted: `Itertools::peeking_take_while` on the iterator of a slice yields
/// the items from the front for as long as the closure accepts them, and
/// stops before the first that it rejects. Collected, the characters of the
/// items it yielded are the longest prefix of `glyphs` that `class` admits
/// throughout.
#[verifier::external_body]
fn take_run(glyphs: &[ClassifiedChar], class: RunClass) -> (run: String)
    ensures
        run@.len() <= glyphs@.len(),
        forall|i: int| 0 <= i < run@.len() ==> run@[i] == (#[trigger] glyphs@[i]).ch,
        forall|i: int| 0 <= i < run@.len() ==> class.admits(#[trigger] glyphs@[i]),
        run@.len() < glyphs@.len() ==> !class.admits(glyphs@[run@.len() as int]),
{
    let mut items = glyphs.iter();
    items.peeking_take_while(|g| class.accepts(g)).map(|g| g.ch).collect()
}

/// Trusted: `format!` with a character in `{}` and an optional string in
/// `{:?}` builds a text from the two values alone; it is what
/// `unexpected_character_text` names.
#[verifier::external_body]
fn unexpected_character_message(unexpected_char: char, input: &Option<String>) -> (text: String)
    ensures
        text@ == unexpected_character_text(
            unexpected_char,
            match input {
                Some(line) => Some(line@),
                None => None,
            },
        ),
{
    format!("Unexpected character '{}' in input \"{:?}\"", unexpected_char, input)
}

impl CharacterEditorLexerError {
    /// The text that tells the user of the error.
    pub fn message(&self) -> (text: String)
        ensures
            text@ == self@.message(),
    {
        match self {
            CharacterEditorLexerError::UnexpectedCharacter { input, unexpected_char } => {
                unexpected_character_message(*unexpected_char, input)
            },
        }
    }
}

impl CharacterEditorLexer {
    /// `c` with its classes.
    pub fn classify_char(c: char) -> (g: ClassifiedChar)
        ensures
            g == classified(c),
    {
        ClassifiedChar {
            ch: c,
            whitespace: c.is_whitespace(),
            alphabetic: c.is_alphabetic(),
            alphanumeric: c.is_alphanumeric(),
        }
    }

    /// The characters of `input`, each with its classes.
    pub fn classify(input: &str) -> (glyphs: Vec<ClassifiedChar>)
        ensures
            glyphs@ == classified_line(input@),
    {
        let mut glyphs: Vec<ClassifiedChar> = Vec::new();
        for c in it: input.chars()
            invariant
                glyphs@ == classified_line(it.seq().take(it.index() as int)),
        {
            glyphs.push(Self::classify_char(c));
        }
        glyphs
    }

    /// The error for `unexpected_char` in the line `input`.
    fn unexpected(input: &str, unexpected_char: char) -> (e: CharacterEditorLexerError)
        ensures
            e@ == (LexErrorModel { input: Some(input@), unexpected_char }),
    {
        CharacterEditorLexerError::UnexpectedCharacter {
            input: Some(input.to_owned()),
            unexpected_char,
        }
    }

    /// The longest run of `class` in `glyphs` from `start`: its characters,
    /// and where it ends.
    fn run_from(glyphs: &Vec<ClassifiedChar>, start: usize, class: RunClass) -> (r: (
        String,
        usize,
    ))
        requires
            start <= glyphs.len(),
        ensures
            r.1 == run_end(glyphs@, start as int, class),
            r.0@ == text_between(glyphs@, start as int, r.1 as int),
            start <= r.1 <= glyphs.len(),
    {
        let rest = slice_subrange(glyphs.as_slice(), start, glyphs.len());
        let run = take_run(rest, class);
        let end = start + run.as_str().unicode_len();
        proof {
            assert forall|i: int| start <= i < end implies class.admits(#[trigger] glyphs@[i]) by {
                assert(rest@[i - start] == glyphs@[i]);
            }
            if end < glyphs.len() {
                assert(rest@[end - start] == glyphs@[end as int]);
            }
            lemma_run_end_unique(glyphs@, start as int, end as int, class);
            assert forall|i: int| 0 <= i < run@.len() implies run@[i] == text_between(
                glyphs@,
                start as int,
                end as int,
            )[i] by {
                assert(rest@[i] == glyphs@[start + i]);
            }
            assert(run@ =~= text_between(glyphs@, start as int, end as int));
        }
        (run, end)
    }

    /// Whether `f` holds of the character at `pos`; `true` where the line
    /// ends at `pos`, so that the end of the line closes whatever `f` closes.
    pub fn check_next<F>(glyphs: &Vec<ClassifiedChar>, pos: usize, f: F) -> (r: bool) where
        F: Fn(ClassifiedChar) -> bool,

        requires
            pos < glyphs.len() ==> f.requires((glyphs[pos as int],)),
        ensures
            pos < glyphs.len() ==> f.ensures((glyphs[pos as int],), r),
            pos >= glyphs.len() ==> r,
    {
        if pos < glyphs.len() {
            return f(glyphs[pos]);
        }
        true
    }

    /// Whether a chunk may end at `pos`.
    fn closed_at(glyphs: &Vec<ClassifiedChar>, pos: usize) -> (r: bool)
        ensures
            r == chunk_closed(glyphs@, pos as int),
    {
        let is_whitespace = |g: ClassifiedChar| -> (b: bool)
            ensures
                b == g.whitespace,
            { g.whitespace };
        Self::check_next(glyphs, pos, is_whitespace)
    }

    /// Reads the digits that start at `pos`, moves `pos` past them, and adds
    /// the number they denote to `tokens`, negated where `is_negative`.
    ///
    /// With no digit at `pos` nothing changes. With a character other than
    /// white space after the digits, that character is the error and no token
    /// is added. A number that does not fit in eight bits adds no token.
    pub fn parse_number(
        input: &str,
        glyphs: &Vec<ClassifiedChar>,
        pos: &mut usize,
        tokens: &mut Vec<CharacterEditorToken>,
        is_negative: bool,
    ) -> (r: Result<(), CharacterEditorLexerError>)
        ensures
            *final(pos) == run_end(glyphs@, *old(pos) as int, RunClass::Digits),
            r is Err <==> *old(pos) < *final(pos) && !chunk_closed(glyphs@, *final(pos) as int),
            r is Err ==> r->Err_0@ == (LexErrorModel {
                input: Some(input@),
                unexpected_char: glyphs@[*final(pos) as int].ch,
            }) && final(tokens)@ == old(tokens)@,
            r is Ok ==> tokens_view(final(tokens)@) == tokens_view(old(tokens)@) + number_tokens(
                text_between(glyphs@, *old(pos) as int, *final(pos) as int),
                is_negative,
            ),
    {
        let start = *pos;
        if start >= glyphs.len() {
            return Ok(());
        }
        let (digits, end) = Self::run_from(glyphs, start, RunClass::Digits);
        *pos = end;
        if end == start {
            assert(tokens_view(tokens@) + Seq::<TokenModel>::empty() =~= tokens_view(tokens@));
            return Ok(());
        }
        if !Self::closed_at(glyphs, end) {
            return Err(Self::unexpected(input, glyphs[end].ch));
        }
        proof {
            lemma_run_end(glyphs@, start as int, RunClass::Digits);
            assert(all_ascii_digits(digits@));
        }
        let ghost before = tokens@;
        match parse_i8(digits.as_str()) {
            Some(number) => {
                let value = if is_negative {
                    -number
                } else {
                    number
                };
                tokens.push(CharacterEditorToken::Number(value));
                assert(tokens_view(tokens@) =~= tokens_view(before) + number_tokens(
                    digits@,
                    is_negative,
                ));
            },
            None => {
                assert(tokens_view(tokens@) + Seq::<TokenModel>::empty() =~= tokens_view(
                    tokens@,
                ));
            },
        }
        Ok(())
    }

    /// Reads the word whose first character stands at `pos`, moves `pos`
    /// past it, and adds it to `tokens`. The word goes on for as long as
    /// alphanumeric characters and `_` follow.
    ///
    /// With a character other than white space after the word, that
    /// character is the error and no token is added. With `pos` at or past
    /// the end of the line nothing changes.
    pub fn parse_word(
        input: &str,
        glyphs: &Vec<ClassifiedChar>,
        pos: &mut usize,
        tokens: &mut Vec<CharacterEditorToken>,
    ) -> (r: Result<(), CharacterEditorLexerError>)
        ensures
            *old(pos) >= glyphs.len() ==> r is Ok && *final(pos) == *old(pos) && final(tokens)@
                == old(tokens)@,
            *old(pos) < glyphs.len() ==> {
                &&& *final(pos) == run_end(glyphs@, *old(pos) + 1, RunClass::WordParts)
                &&& r is Err <==> !chunk_closed(glyphs@, *final(pos) as int)
                &&& r is Err ==> r->Err_0@ == (LexErrorModel {
                    input: Some(input@),
                    unexpected_char: glyphs@[*final(pos) as int].ch,
                }) && final(tokens)@ == old(tokens)@
                &&& r is Ok ==> tokens_view(final(tokens)@) == tokens_view(old(tokens)@).push(
                    TokenModel::Word(
                        text_between(glyphs@, *old(pos) as int, *final(pos) as int),
                    ),
                )
            },
    {
        let start = *pos;
        if start >= glyphs.len() {
            return Ok(());
        }
        let mut word = String::new();
        word.push(glyphs[start].ch);
        let (rest, end) = Self::run_from(glyphs, start + 1, RunClass::WordParts);
        word.append(rest.as_str());
        *pos = end;
        if !Self::closed_at(glyphs, end) {
            return Err(Self::unexpected(input, glyphs[end].ch));
        }
        assert(word@ =~= text_between(glyphs@, start as int, end as int));
        let ghost before = tokens@;
        tokens.push(CharacterEditorToken::Word(word));
        assert(tokens_view(tokens@) =~= tokens_view(before).push(
            TokenModel::Word(text_between(glyphs@, start as int, end as int)),
        ));
        Ok(())
    }

    /// The tokens of the line whose characters, with their classes, are
    /// `glyphs`, or the first lexical error. `input` is the line that an
    /// error cites.
    pub fn scan(input: &str, glyphs: &Vec<ClassifiedChar>) -> (r: Result<
        Vec<CharacterEditorToken>,
        CharacterEditorLexerError,
    >)
        ensures
            lexed_view(r) == lex_line(input@, glyphs@),
    {
        let mut tokens: Vec<CharacterEditorToken> = Vec::new();
        let mut pos: usize = 0;
        while pos < glyphs.len()
            invariant
                pos <= glyphs.len(),
                lex_from(glyphs@, 0) == prepend(
                    tokens_view(tokens@),
                    lex_from(glyphs@, pos as int),
                ),
            decreases glyphs.len() - pos,
        {
            let g = glyphs[pos];
            let ghost start = pos as int;
            let ghost before = tokens_view(tokens@);
            proof {
                lemma_chunk_advances(glyphs@, start);
            }
            if g.whitespace {
                pos += 1;
            } else if g.ch == '-' {
                if pos + 1 < glyphs.len() && glyphs[pos + 1].ch.is_ascii_digit() {
                    pos += 1;
                    Self::parse_number(input, glyphs, &mut pos, &mut tokens, true)?;
                } else {
                    return Err(Self::unexpected(input, g.ch));
                }
            } else if g.ch.is_ascii_digit() {
                Self::parse_number(input, glyphs, &mut pos, &mut tokens, false)?;
            } else if g.alphabetic {
                Self::parse_word(input, glyphs, &mut pos, &mut tokens)?;
            } else {
                return Err(Self::unexpected(input, g.ch));
            }
            proof {
                if !g.whitespace {
                    let chunk = chunk_at(glyphs@, start)->Some_0;
                    assert(pos == chunk.0);
                    assert(tokens_view(tokens@) =~= before + chunk.1);
                    let rest = lex_from(glyphs@, pos as int);
                    if rest is Ok {
                        assert((before + chunk.1) + rest->Ok_0 =~= before + (chunk.1 + rest->Ok_0));
                    }
                }
            }
        }
        proof {
            assert(tokens_view(tokens@) + Seq::<TokenModel>::empty() =~= tokens_view(tokens@));
        }
        Ok(tokens)
    }
}

impl Lexer<CharacterEditorToken, CharacterEditorLexerError> for CharacterEditorLexer {
    /// The tokens of `input`, or the first lexical error with `input` as the
    /// line it cites.
    fn lex(&self, input: String) -> (r: Result<
        Vec<CharacterEditorToken>,
        CharacterEditorLexerError,
    >)
        ensures
            lexed_view(r) == lex_line(input@, classified_line(input@)),
    {
        let glyphs = Self::classify(input.as_str());
        Self::scan(input.as_str(), &glyphs)
    }
}

} // verus!
