use sysml::lexer::{lex, LexError};
use sysml::position::advance_position;
use sysml::token::{Span, Token, TokenKind};

fn kinds(input: &str) -> Vec<TokenKind> {
    lex(input).unwrap().iter().map(|token| token.kind).collect()
}

fn lexemes(input: &str) -> Vec<String> {
    lex(input).unwrap().into_iter().map(|token| token.lexeme).collect()
}

#[test]
fn lexes_keywords_symbols_and_identifiers() {
    let tokens = lex("package Demo { part x; }").unwrap();
    let kinds: Vec<_> = tokens.iter().map(|token| token.kind).collect();

    assert_eq!(
        kinds,
        vec![
            TokenKind::Package,
            TokenKind::Identifier,
            TokenKind::LBrace,
            TokenKind::Part,
            TokenKind::Identifier,
            TokenKind::SemiColon,
            TokenKind::RBrace,
        ]
    );
}

#[test]
fn uses_span_positions() {
    let tokens = lex("part x\nstate y").unwrap();

    assert_eq!(tokens[0].span.line, 1);
    assert_eq!(tokens[0].span.column, 1);
    assert_eq!(tokens[2].span.line, 2);
    assert_eq!(tokens[2].span.column, 1);
}

#[test]
fn empty_and_whitespace_only_inputs_give_no_tokens() {
    assert_eq!(lex("").unwrap(), Vec::<Token>::new());
    assert_eq!(lex(" \t\r\n \u{3000}\u{2028}").unwrap(), Vec::<Token>::new());
}

#[test]
fn spans_hold_byte_offsets_and_character_columns() {
    let tokens = lex("\"é\" part\n  x").unwrap();
    assert_eq!(tokens.len(), 3);
    assert_eq!(tokens[0].kind, TokenKind::String);
    assert_eq!(tokens[0].span, Span { start: 0, end: 4, line: 1, column: 1 });
    assert_eq!(tokens[1].kind, TokenKind::Part);
    assert_eq!(tokens[1].span, Span { start: 5, end: 9, line: 1, column: 5 });
    assert_eq!(tokens[2].span, Span { start: 12, end: 13, line: 2, column: 3 });
}

#[test]
fn unrecognized_character_is_an_error_at_its_position() {
    let err = lex("part x é").unwrap_err();
    assert_eq!(
        err,
        LexError {
            message: "unrecognized token".to_string(),
            span: Span { start: 7, end: 7, line: 1, column: 8 },
        }
    );
}

#[test]
fn unterminated_string_is_unrecognized() {
    let err = lex("a \"open").unwrap_err();
    assert_eq!(err.message, "unrecognized token");
    assert_eq!(err.span, Span { start: 2, end: 2, line: 1, column: 3 });
}

#[test]
fn line_comments_stop_at_line_breaks() {
    let tokens = lex("// note\r\npart").unwrap();
    assert_eq!(tokens[0].kind, TokenKind::Comment);
    assert_eq!(tokens[0].lexeme, "// note");
    assert_eq!(tokens[1].kind, TokenKind::Part);
    assert_eq!(tokens[1].span.line, 2);
}

#[test]
fn block_comments_end_at_the_first_close() {
    assert_eq!(lexemes("/* a\n*b */ */"), vec!["/* a\n*b */", "*", "/"]);
    assert_eq!(kinds("/**/x"), vec![TokenKind::Comment, TokenKind::Identifier]);
    assert_eq!(kinds("//* doc */"), vec![TokenKind::Comment]);
    assert_eq!(lexemes("//* doc */ x"), vec!["//* doc */ x"]);
}

#[test]
fn unterminated_block_comment_falls_back_to_symbols() {
    assert_eq!(kinds("/* x"), vec![TokenKind::Slash, TokenKind::Star, TokenKind::Identifier]);
}

#[test]
fn strings_keep_escapes() {
    let tokens = lex(r#""a\"b" "c\\" x"#).unwrap();
    assert_eq!(tokens[0].kind, TokenKind::String);
    assert_eq!(tokens[0].lexeme, r#""a\"b""#);
    assert_eq!(tokens[1].lexeme, r#""c\\""#);
    assert_eq!(tokens[2].kind, TokenKind::Identifier);
    assert_eq!(lexemes("\"multi\nline\""), vec!["\"multi\nline\""]);
}

#[test]
fn numbers_take_fraction_and_exponent_only_when_complete() {
    assert_eq!(lexemes("12.5e-3"), vec!["12.5e-3"]);
    assert_eq!(lexemes("1.x"), vec!["1", ".", "x"]);
    assert_eq!(lexemes("1e+"), vec!["1", "e", "+"]);
    assert_eq!(lexemes("2E7 3e"), vec!["2E7", "3", "e"]);
    assert_eq!(lexemes("1..5"), vec!["1", "..", "5"]);
    assert_eq!(kinds("٣٤"), vec![TokenKind::Number]);
}

#[test]
fn identifiers_and_keywords() {
    assert_eq!(
        kinds("part partition _x x9 comment"),
        vec![
            TokenKind::Part,
            TokenKind::Identifier,
            TokenKind::Identifier,
            TokenKind::Identifier,
            TokenKind::CommentKeyword,
        ]
    );
    assert_eq!(lexemes("abc123def"), vec!["abc123def"]);
}

#[test]
fn symbols_take_the_longest_reserved_spelling() {
    assert_eq!(
        kinds("::> :>> :> : :: === == = !== != ! .? .. ."),
        vec![
            TokenKind::ColonColonGt,
            TokenKind::ColonGtGt,
            TokenKind::ColonGt,
            TokenKind::Colon,
            TokenKind::ColonColon,
            TokenKind::EqEqEq,
            TokenKind::EqEq,
            TokenKind::Eq,
            TokenKind::BangEqEq,
            TokenKind::BangEq,
            TokenKind::Bang,
            TokenKind::DotQuestion,
            TokenKind::DotDot,
            TokenKind::Dot,
        ]
    );
    assert_eq!(lexemes("a::>b"), vec!["a", "::>", "b"]);
}

#[test]
fn tokens_after_an_error_are_not_produced() {
    let err = lex("part x;\n  $ y").unwrap_err();
    assert_eq!(err.span, Span { start: 10, end: 10, line: 2, column: 3 });
}

#[test]
fn keyword_and_symbol_tables_round_trip() {
    for kind in sysml::token::keyword_kinds() {
        assert_eq!(TokenKind::from_keyword(&kind.text()), Some(kind));
        assert_eq!(kinds(&kind.text()), vec![kind]);
    }
    for kind in sysml::token::symbol_kinds() {
        assert_eq!(TokenKind::from_symbol(&kind.text()), Some(kind));
        assert_eq!(kinds(&kind.text()), vec![kind]);
    }
    assert_eq!(TokenKind::from_keyword("Package"), None);
    assert_eq!(TokenKind::from_symbol("$"), None);
    assert_eq!(TokenKind::Package.text(), "package");
    assert_eq!(TokenKind::ColonColonGt.text(), "::>");
    assert_eq!(TokenKind::Identifier.text(), "");
}

#[test]
fn advance_position_counts_lines_and_columns() {
    let mut line = 1;
    let mut column = 1;
    advance_position("ab\ncd\né", &mut line, &mut column);
    assert_eq!((line, column), (3, 2));
    let mut line = 4;
    let mut column = 7;
    advance_position("xyz", &mut line, &mut column);
    assert_eq!((line, column), (4, 10));
}

#[test]
fn advance_position_composes_over_concatenation() {
    let (a, b) = ("one\ntw", "o\nthree");
    let mut line1 = 1;
    let mut column1 = 1;
    advance_position(&format!("{a}{b}"), &mut line1, &mut column1);
    let mut line2 = 1;
    let mut column2 = 1;
    advance_position(a, &mut line2, &mut column2);
    advance_position(b, &mut line2, &mut column2);
    assert_eq!((line1, column1), (line2, column2));
}

#[test]
fn lexemes_and_whitespace_tile_the_input() {
    let input = "package P {\n  part def A :> B; // c\n  attribute x = 1.5e3;\n}\n";
    let tokens = lex(input).unwrap();
    let mut last = 0;
    for token in &tokens {
        assert!(input[last..token.span.start].chars().all(char::is_whitespace));
        assert_eq!(&input[token.span.start..token.span.end], token.lexeme);
        last = token.span.end;
    }
    assert!(input[last..].chars().all(char::is_whitespace));
}

#[test]
fn advance_position_handles_counters_at_their_limit() {
    let mut line = usize::MAX;
    let mut column = 1;
    advance_position("a", &mut line, &mut column);
    assert_eq!((line, column), (usize::MAX, 2));
    let mut line = 3;
    let mut column = usize::MAX;
    advance_position("\nxy", &mut line, &mut column);
    assert_eq!((line, column), (4, 3));
}

#[test]
fn lexing_the_text_before_an_error_succeeds() {
    let input = "part def A {\n  attribute x = 1; ` }";
    let err = lex(input).unwrap_err();
    assert_eq!(err.message, "unrecognized token");
    assert_eq!(err.span.start, err.span.end);
    assert!(input.is_char_boundary(err.span.start));
    assert_eq!(&input[err.span.start..err.span.start + 1], "`");
    assert!(lex(&input[..err.span.start]).is_ok());
}

#[test]
fn token_kind_follows_first_character() {
    let input = "\"s\" // c\n/* d */ 42 name part :: / *";
    for token in lex(input).unwrap() {
        let first = token.lexeme.chars().next().unwrap();
        assert!(!first.is_whitespace());
        if first == '"' {
            assert_eq!(token.kind, TokenKind::String);
        }
        if token.lexeme.starts_with("//") || token.lexeme.starts_with("/*") {
            assert_eq!(token.kind, TokenKind::Comment);
        }
        if first.is_ascii_digit() {
            assert_eq!(token.kind, TokenKind::Number);
        }
        if first.is_ascii_alphabetic() || first == '_' {
            assert_eq!(
                token.kind,
                TokenKind::from_keyword(&token.lexeme).unwrap_or(TokenKind::Identifier)
            );
        }
    }
}

#[test]
fn token_positions_follow_the_text_before_them() {
    let input = "package P {\n\tpart a;\n\n  \"x\ny\" b }";
    for token in lex(input).unwrap() {
        let before = &input[..token.span.start];
        assert_eq!(token.span.line, 1 + before.matches('\n').count());
        assert_eq!(token.span.column, 1 + before.rsplit('\n').next().unwrap().chars().count());
    }
}
