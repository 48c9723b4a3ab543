use tabletop_tui::parser::character_editor_lexer::{
    CharacterEditorLexer, CharacterEditorLexerError, CharacterEditorToken, ClassifiedChar,
    RunClass,
};
use tabletop_tui::parser::Lexer;

fn lex(line: &str) -> Result<Vec<CharacterEditorToken>, CharacterEditorLexerError> {
    CharacterEditorLexer {}.lex(line.to_string())
}

fn word(text: &str) -> CharacterEditorToken {
    CharacterEditorToken::Word(text.to_string())
}

fn number(value: i8) -> CharacterEditorToken {
    CharacterEditorToken::Number(value)
}

fn unexpected(line: &str, c: char) -> CharacterEditorLexerError {
    CharacterEditorLexerError::UnexpectedCharacter {
        input: Some(line.to_string()),
        unexpected_char: c,
    }
}

fn letter(c: char) -> ClassifiedChar {
    ClassifiedChar { ch: c, whitespace: false, alphabetic: true, alphanumeric: true }
}

fn plain(c: char) -> ClassifiedChar {
    ClassifiedChar { ch: c, whitespace: false, alphabetic: false, alphanumeric: false }
}

fn digit(c: char) -> ClassifiedChar {
    ClassifiedChar { ch: c, whitespace: false, alphabetic: false, alphanumeric: true }
}

fn space() -> ClassifiedChar {
    ClassifiedChar { ch: ' ', whitespace: true, alphabetic: false, alphanumeric: false }
}

#[test]
fn lex_exit_lower_case() {
    assert_eq!(lex("exit"), Ok(vec![word("exit")]));
}

#[test]
fn lex_exit_keeps_case() {
    assert_eq!(lex("Exit"), Ok(vec![word("Exit")]));
}

#[test]
fn lex_negative_number() {
    assert_eq!(lex("-5"), Ok(vec![number(-5)]));
}

#[test]
fn lex_positive_number() {
    assert_eq!(lex("5"), Ok(vec![number(5)]));
}

#[test]
fn lex_two_words_with_underscore_and_digit() {
    assert_eq!(lex("foo_1 bar"), Ok(vec![word("foo_1"), word("bar")]));
}

#[test]
fn lex_word_followed_by_dollar_fails() {
    assert_eq!(lex("foo$"), Err(unexpected("foo$", '$')));
}

#[test]
fn lex_empty_line_gives_no_token() {
    assert_eq!(lex(""), Ok(vec![]));
}

#[test]
fn lex_white_space_gives_no_token() {
    assert_eq!(lex("  \t \n "), Ok(vec![]));
}

#[test]
fn lex_skips_leading_and_trailing_white_space() {
    assert_eq!(lex("  exit  "), Ok(vec![word("exit")]));
}

#[test]
fn lex_largest_number() {
    assert_eq!(lex("127"), Ok(vec![number(127)]));
}

#[test]
fn lex_smallest_number() {
    assert_eq!(lex("-127"), Ok(vec![number(-127)]));
}

#[test]
fn lex_number_too_large_is_dropped() {
    assert_eq!(lex("128"), Ok(vec![]));
}

#[test]
fn lex_negative_number_too_large_is_dropped() {
    assert_eq!(lex("-128"), Ok(vec![]));
}

#[test]
fn lex_dropped_number_between_words() {
    assert_eq!(lex("foo 99999 bar"), Ok(vec![word("foo"), word("bar")]));
}

#[test]
fn lex_leading_zeros() {
    assert_eq!(lex("007"), Ok(vec![number(7)]));
}

#[test]
fn lex_zero_and_negative_zero() {
    assert_eq!(lex("0 -0"), Ok(vec![number(0), number(0)]));
}

#[test]
fn lex_numbers_separated_by_white_space() {
    assert_eq!(lex("5 6"), Ok(vec![number(5), number(6)]));
}

#[test]
fn lex_command_with_arguments() {
    assert_eq!(lex("move -3 up 12"), Ok(vec![word("move"), number(-3), word("up"), number(12)]));
}

#[test]
fn lex_number_followed_by_letter_fails() {
    assert_eq!(lex("5a"), Err(unexpected("5a", 'a')));
}

#[test]
fn lex_number_followed_by_minus_fails() {
    assert_eq!(lex("5-3"), Err(unexpected("5-3", '-')));
}

#[test]
fn lex_word_followed_by_minus_fails() {
    assert_eq!(lex("foo-5"), Err(unexpected("foo-5", '-')));
}

#[test]
fn lex_lone_minus_fails() {
    assert_eq!(lex("-"), Err(unexpected("-", '-')));
}

#[test]
fn lex_minus_before_letter_fails() {
    assert_eq!(lex("-a"), Err(unexpected("-a", '-')));
}

#[test]
fn lex_minus_apart_from_digits_fails() {
    assert_eq!(lex("- 5"), Err(unexpected("- 5", '-')));
}

#[test]
fn lex_punctuation_fails() {
    assert_eq!(lex("$"), Err(unexpected("$", '$')));
}

#[test]
fn lex_leading_underscore_fails() {
    assert_eq!(lex("_foo"), Err(unexpected("_foo", '_')));
}

#[test]
fn lex_stops_at_first_error() {
    assert_eq!(lex("foo $ bar #"), Err(unexpected("foo $ bar #", '$')));
}

#[test]
fn lex_accented_words() {
    assert_eq!(lex("h\u{e9}llo w\u{f6}rld"), Ok(vec![word("h\u{e9}llo"), word("w\u{f6}rld")]));
}

#[test]
fn lex_word_may_hold_other_digits() {
    assert_eq!(lex("a\u{663}"), Ok(vec![word("a\u{663}")]));
}

#[test]
fn lex_other_digit_cannot_start_a_chunk() {
    assert_eq!(lex("\u{663}"), Err(unexpected("\u{663}", '\u{663}')));
}

#[test]
fn lex_no_break_space_separates() {
    assert_eq!(lex("a\u{a0}b"), Ok(vec![word("a"), word("b")]));
}

#[test]
fn lex_takes_the_whole_run_and_no_more() {
    assert_eq!(lex("abc def"), Ok(vec![word("abc"), word("def")]));
    assert_eq!(lex("12 34"), Ok(vec![number(12), number(34)]));
}

#[test]
fn classify_gives_each_character_its_classes() {
    let glyphs = CharacterEditorLexer::classify("a 1_");
    assert_eq!(
        glyphs,
        vec![
            ClassifiedChar { ch: 'a', whitespace: false, alphabetic: true, alphanumeric: true },
            ClassifiedChar { ch: ' ', whitespace: true, alphabetic: false, alphanumeric: false },
            ClassifiedChar { ch: '1', whitespace: false, alphabetic: false, alphanumeric: true },
            ClassifiedChar { ch: '_', whitespace: false, alphabetic: false, alphanumeric: false },
        ]
    );
}

#[test]
fn classify_char_matches_the_standard_library() {
    for c in ['x', 'Z', '7', ' ', '\t', '-', '_', '$', '\u{e9}', '\u{663}', '\u{a0}'] {
        let g = CharacterEditorLexer::classify_char(c);
        assert_eq!(g.ch, c);
        assert_eq!(g.whitespace, c.is_whitespace());
        assert_eq!(g.alphabetic, c.is_alphabetic());
        assert_eq!(g.alphanumeric, c.is_alphanumeric());
    }
}

#[test]
fn run_class_accepts() {
    assert!(RunClass::Digits.accepts(&digit('0')));
    assert!(RunClass::Digits.accepts(&plain('9')));
    assert!(!RunClass::Digits.accepts(&letter('a')));
    assert!(!RunClass::Digits.accepts(&digit('\u{663}')));
    assert!(RunClass::WordParts.accepts(&letter('a')));
    assert!(RunClass::WordParts.accepts(&digit('1')));
    assert!(RunClass::WordParts.accepts(&plain('_')));
    assert!(!RunClass::WordParts.accepts(&plain('$')));
    assert!(!RunClass::WordParts.accepts(&space()));
}

#[test]
fn scan_goes_by_the_classes_it_is_given() {
    // '#' marked as a letter is a letter to the scanner.
    let glyphs = vec![letter('#'), letter('a'), space(), digit('4'), digit('2')];
    assert_eq!(
        CharacterEditorLexer::scan("#a 42", &glyphs),
        Ok(vec![word("#a"), number(42)])
    );
    // 'a' marked as nothing can start no chunk.
    let glyphs = vec![plain('a')];
    assert_eq!(CharacterEditorLexer::scan("a", &glyphs), Err(unexpected("a", 'a')));
}

#[test]
fn scan_cites_the_line_it_is_given() {
    let glyphs = vec![plain('$')];
    assert_eq!(
        CharacterEditorLexer::scan("another line", &glyphs),
        Err(unexpected("another line", '$'))
    );
}

#[test]
fn scan_white_space_wins_over_other_classes() {
    let both = ClassifiedChar { ch: '-', whitespace: true, alphabetic: true, alphanumeric: true };
    assert_eq!(CharacterEditorLexer::scan("-", &vec![both]), Ok(vec![]));
}

#[test]
fn check_next_at_end_is_true() {
    let glyphs = vec![letter('a')];
    assert!(CharacterEditorLexer::check_next(&glyphs, 1, |_| false));
    assert!(CharacterEditorLexer::check_next(&glyphs, 7, |_| false));
}

#[test]
fn check_next_asks_the_closure() {
    let glyphs = vec![letter('a'), space()];
    assert!(!CharacterEditorLexer::check_next(&glyphs, 0, |g| g.whitespace));
    assert!(CharacterEditorLexer::check_next(&glyphs, 1, |g| g.whitespace));
    assert!(CharacterEditorLexer::check_next(&glyphs, 0, |g| g.ch == 'a'));
}

#[test]
fn parse_number_reads_digits_and_moves_on() {
    let glyphs = vec![digit('4'), digit('2'), space(), digit('7')];
    let mut pos = 0;
    let mut tokens = vec![word("x")];
    let r = CharacterEditorLexer::parse_number("42 7", &glyphs, &mut pos, &mut tokens, false);
    assert_eq!(r, Ok(()));
    assert_eq!(pos, 2);
    assert_eq!(tokens, vec![word("x"), number(42)]);
}

#[test]
fn parse_number_negates() {
    let glyphs = vec![plain('-'), digit('9')];
    let mut pos = 1;
    let mut tokens = vec![];
    let r = CharacterEditorLexer::parse_number("-9", &glyphs, &mut pos, &mut tokens, true);
    assert_eq!(r, Ok(()));
    assert_eq!(pos, 2);
    assert_eq!(tokens, vec![number(-9)]);
}

#[test]
fn parse_number_without_digits_changes_nothing() {
    let glyphs = vec![letter('a')];
    let mut pos = 0;
    let mut tokens = vec![];
    let r = CharacterEditorLexer::parse_number("a", &glyphs, &mut pos, &mut tokens, false);
    assert_eq!(r, Ok(()));
    assert_eq!(pos, 0);
    assert_eq!(tokens, vec![]);
    let mut pos = 5;
    let r = CharacterEditorLexer::parse_number("a", &glyphs, &mut pos, &mut tokens, true);
    assert_eq!(r, Ok(()));
    assert_eq!(pos, 5);
    assert_eq!(tokens, vec![]);
}

#[test]
fn parse_number_reports_what_follows_the_digits() {
    let glyphs = vec![digit('1'), digit('2'), letter('x')];
    let mut pos = 0;
    let mut tokens = vec![];
    let r = CharacterEditorLexer::parse_number("12x", &glyphs, &mut pos, &mut tokens, false);
    assert_eq!(r, Err(unexpected("12x", 'x')));
    assert_eq!(pos, 2);
    assert_eq!(tokens, vec![]);
}

#[test]
fn parse_number_drops_what_does_not_fit() {
    let glyphs = vec![digit('3'), digit('0'), digit('0')];
    let mut pos = 0;
    let mut tokens = vec![];
    let r = CharacterEditorLexer::parse_number("300", &glyphs, &mut pos, &mut tokens, false);
    assert_eq!(r, Ok(()));
    assert_eq!(pos, 3);
    assert_eq!(tokens, vec![]);
}

#[test]
fn parse_word_reads_the_word_and_moves_on() {
    let glyphs = vec![letter('a'), digit('1'), plain('_'), space(), letter('b')];
    let mut pos = 0;
    let mut tokens = vec![];
    let r = CharacterEditorLexer::parse_word("a1_ b", &glyphs, &mut pos, &mut tokens);
    assert_eq!(r, Ok(()));
    assert_eq!(pos, 3);
    assert_eq!(tokens, vec![word("a1_")]);
}

#[test]
fn parse_word_reports_what_follows_the_word() {
    let glyphs = vec![letter('a'), plain('$')];
    let mut pos = 0;
    let mut tokens = vec![];
    let r = CharacterEditorLexer::parse_word("a$", &glyphs, &mut pos, &mut tokens);
    assert_eq!(r, Err(unexpected("a$", '$')));
    assert_eq!(pos, 1);
    assert_eq!(tokens, vec![]);
}

#[test]
fn lexer_error_message() {
    let e = unexpected("foo$", '$');
    assert_eq!(e.message(), "Unexpected character '$' in input \"Some(\"foo$\")\"");
    let e = CharacterEditorLexerError::UnexpectedCharacter { input: None, unexpected_char: '#' };
    assert_eq!(e.message(), "Unexpected character '#' in input \"None\"");
}
