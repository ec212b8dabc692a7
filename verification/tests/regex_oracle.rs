//! Compares the lexer with a lexer driven by the `regex` crate over the same
//! token pattern, and the character classes with the regex classes `\d`
//! and `\s`.

use regex::Regex;
use sysml::lexer::{lex, LexError};
use sysml::token::{symbol_kinds, Span, Token, TokenKind};
use sysml::unicode::{decimal_digit, white_space};

fn token_regex() -> Regex {
    let mut symbols: Vec<String> = symbol_kinds().iter().map(|kind| kind.text()).collect();
    symbols.sort_by_key(|symbol| std::cmp::Reverse(symbol.len()));
    let symbol_pattern = symbols
        .iter()
        .map(|symbol| regex::escape(symbol))
        .collect::<Vec<_>>()
        .join("|");

    let pattern = format!(
        r#"(?xms)
        (?P<whitespace>\s+)
        |(?P<comment>//[^\r\n]*|//\*.*?\*/|/\*.*?\*/)
        |(?P<string>"(?:\\.|[^"\\])*")
        |(?P<number>\d+(?:\.\d+)?(?:[eE][+-]?\d+)?)
        |(?P<identifier>[A-Za-z_][A-Za-z0-9_]*)
        |(?P<symbol>{symbol_pattern})
        "#
    );
    Regex::new(&pattern).unwrap()
}

fn step(lexeme: &str, line: &mut usize, column: &mut usize) {
    for ch in lexeme.chars() {
        if ch == '\n' {
            *line += 1;
            *column = 1;
        } else {
            *column += 1;
        }
    }
}

fn regex_lex(regex: &Regex, input: &str) -> Result<Vec<Token>, LexError> {
    let mut tokens = Vec::new();
    let mut offset = 0;
    let mut line = 1;
    let mut column = 1;
    while offset < input.len() {
        let unrecognized = LexError {
            message: "unrecognized token".to_string(),
            span: Span { start: offset, end: offset, line, column },
        };
        let captures = match regex.captures_at(input, offset) {
            Some(captures) => captures,
            None => return Err(unrecognized),
        };
        let matched = captures.get(0).unwrap();
        if matched.start() != offset {
            return Err(unrecognized);
        }
        let lexeme = matched.as_str();
        let span = Span { start: matched.start(), end: matched.end(), line, column };
        let kind = if captures.name("whitespace").is_some() {
            step(lexeme, &mut line, &mut column);
            offset = matched.end();
            continue;
        } else if captures.name("comment").is_some() {
            TokenKind::Comment
        } else if captures.name("string").is_some() {
            TokenKind::String
        } else if captures.name("number").is_some() {
            TokenKind::Number
        } else if captures.name("identifier").is_some() {
            TokenKind::from_keyword(lexeme).unwrap_or(TokenKind::Identifier)
        } else {
            match TokenKind::from_symbol(lexeme) {
                Some(kind) => kind,
                None => {
                    return Err(LexError { message: format!("unknown symbol: {lexeme}"), span })
                }
            }
        };
        tokens.push(Token { kind, lexeme: lexeme.to_string(), span });
        step(lexeme, &mut line, &mut column);
        offset = matched.end();
    }
    Ok(tokens)
}

const ALPHABET: &[&str] = &[
    "a", "b", "Z", "_", "0", "9", "\u{663}", "\u{ff19}", " ", "\n", "\r", "\t", "\u{3000}", "/",
    "*", "\"", "\\", ".", "e", "E", "+", "-", ":", ">", "=", "!", "<", "?", "@", "#", "{", "}", "(",
    ")", ";", "$", "\u{e9}", "part", "package", "comment", "about", "~", "|", "&", "'", "\u{1d7ce}",
];

fn samples() -> Vec<String> {
    let mut out: Vec<String> = vec![
        "package Demo { part x; }".to_string(),
        "part x\nstate y".to_string(),
        "/* a */ // b\n\"s\\\"t\" 1.5e+3 x::>y".to_string(),
        "/*/ */".to_string(),
        "//* x */".to_string(),
        "1e".to_string(),
        "\"\\".to_string(),
    ];
    let mut seed: u64 = 0x2545_f491_4f6c_dd1d;
    for _ in 0..20000 {
        seed = seed.wrapping_mul(6364136223846793005).wrapping_add(1442695040888963407);
        let len = (seed >> 59) as usize;
        let mut text = String::new();
        for _ in 0..len {
            seed = seed.wrapping_mul(6364136223846793005).wrapping_add(1442695040888963407);
            text.push_str(ALPHABET[(seed >> 33) as usize % ALPHABET.len()]);
        }
        out.push(text);
    }
    out
}

#[test]
fn lexer_agrees_with_the_regex_driven_lexer() {
    let regex = token_regex();
    for input in samples() {
        assert_eq!(lex(&input), regex_lex(&regex, &input), "input {input:?}");
    }
}

#[test]
fn character_classes_agree_with_regex_classes() {
    let digit = Regex::new(r"^\d$").unwrap();
    let space = Regex::new(r"^\s$").unwrap();
    let mut buffer = [0u8; 4];
    for code in 0..=0x10FFFFu32 {
        if let Some(c) = char::from_u32(code) {
            let text = c.encode_utf8(&mut buffer);
            assert_eq!(decimal_digit(c), digit.is_match(text), "char {code:#x}");
            assert_eq!(white_space(c), space.is_match(text), "char {code:#x}");
        }
    }
}
