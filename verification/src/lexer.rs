//! The lexer: turns source text into tokens with their spans.
//!
//! The token grammar, tried at each position in this order (the first class
//! that matches wins, and within a class the longest match is taken):
//!
//! - whitespace: a run of Unicode `White_Space` characters (skipped);
//! - comment: `//` up to the end of the line, or `/*` up to the first `*/`;
//! - string: `"` ... `"`, where a backslash escapes the next character;
//! - number: decimal digits, an optional fraction `.digits` and an optional
//!   exponent `e`/`E`, optional sign, digits (digits are Unicode `Nd`);
//! - identifier: `[A-Za-z_][A-Za-z0-9_]*`, or a keyword when reserved;
//! - symbol: the longest reserved symbol that fits.

use vstd::prelude::*;

use crate::position::{
    advance, advance_range, lemma_advance_bounds, lemma_advance_concat, lemma_advance_from_start,
    lemma_line_len_bounds, lemma_line_tail_len_bound, line_tail_len, newline_count,
};
use crate::text::{chars_match, chars_of, string_from_chars};
use crate::token::{
    keyword_kinds, keyword_of, keywords, lemma_keyword_of, lemma_lookup_own_text, lookup_range,
    lemma_symbol_of, lemma_symbol_table, lookup_text, reserved_symbol_spellings, reserved_words,
    symbol_kinds, symbol_of, symbols, Span,
    SpecToken, Token, TokenKind,
};
use crate::unicode::{
    char_utf8_width, decimal_digit, ident_continue, ident_start, is_decimal_digit,
    is_ident_continue, is_ident_start, is_white_space, lemma_utf8_len_at_least_len,
    lemma_char_code, lemma_utf8_len_ascii, lemma_utf8_len_concat, lemma_utf8_len_encode, utf8_len, white_space,
};

verus! {

/// Why lexing stopped, and where.
#[derive(Debug, Clone, PartialEq, Eq)]
pub struct LexError {
    pub message: String,
    pub span: Span,
}

/// The mathematical value of a [`LexError`].
pub ghost struct SpecLexError {
    pub message: Seq<char>,
    pub span: Span,
}

impl View for LexError {
    type V = SpecLexError;

    open spec fn view(&self) -> SpecLexError {
        SpecLexError { message: self.message@, span: self.span }
    }
}

/// The classes of the token grammar, in the order in which they are tried.
#[derive(Debug, Clone, Copy, PartialEq, Eq, Structural)]
pub enum TokenClass {
    WhiteSpace,
    Comment,
    String,
    Number,
    Identifier,
    Symbol,
}

/// The character classes that the grammar takes runs of.
#[derive(Debug, Clone, Copy, PartialEq, Eq, Structural)]
pub enum CharClass {
    WhiteSpace,
    DecimalDigit,
    IdentContinue,
    NotLineBreak,
}

/// Whether `c` belongs to class `k`.
pub open spec fn in_class(c: char, k: CharClass) -> bool {
    match k {
        CharClass::WhiteSpace => is_white_space(c),
        CharClass::DecimalDigit => is_decimal_digit(c),
        CharClass::IdentContinue => is_ident_continue(c),
        CharClass::NotLineBreak => c != '\r' && c != '\n',
    }
}

/// The end of the longest run of class `k` that starts at `i`.
pub open spec fn run_end(s: Seq<char>, i: int, k: CharClass) -> int
    decreases s.len() - i,
{
    if 0 <= i < s.len() && in_class(s[i], k) {
        run_end(s, i + 1, k)
    } else {
        i
    }
}

/// Whether `t` occurs in `s` at position `i`.
pub open spec fn starts_with(s: Seq<char>, i: int, t: Seq<char>) -> bool {
    0 <= i && i + t.len() <= s.len() && s.subrange(i, i + t.len()) == t
}

/// The end of the first `*/` that starts at or after `i`.
pub open spec fn block_comment_end(s: Seq<char>, i: int) -> Option<int>
    decreases s.len() - i,
{
    if i < 0 || i + 1 >= s.len() {
        None
    } else if s[i] == '*' && s[i + 1] == '/' {
        Some(i + 2)
    } else {
        block_comment_end(s, i + 1)
    }
}

/// The end of the string literal whose body starts at `i` (just after the
/// opening quote): the position after the first quote that is not escaped.
pub open spec fn string_end(s: Seq<char>, i: int) -> Option<int>
    decreases s.len() - i,
{
    if i < 0 || i >= s.len() {
        None
    } else if s[i] == '"' {
        Some(i + 1)
    } else if s[i] == '\\' {
        if i + 1 < s.len() {
            string_end(s, i + 2)
        } else {
            None
        }
    } else {
        string_end(s, i + 1)
    }
}

/// The end of the number that starts at `i`: digits, then `.digits` if a
/// digit follows the dot, then an exponent if its digits are there.
pub open spec fn number_end(s: Seq<char>, i: int) -> int {
    let a = run_end(s, i, CharClass::DecimalDigit);
    let b = if a + 1 < s.len() && s[a] == '.' && is_decimal_digit(s[a + 1]) {
        run_end(s, a + 1, CharClass::DecimalDigit)
    } else {
        a
    };
    let k = if b + 1 < s.len() && (s[b + 1] == '+' || s[b + 1] == '-') {
        b + 2
    } else {
        b + 1
    };
    if b < s.len() && (s[b] == 'e' || s[b] == 'E') && k < s.len() && is_decimal_digit(s[k]) {
        run_end(s, k, CharClass::DecimalDigit)
    } else {
        b
    }
}

/// The first kind of `ks` whose spelling occurs in `s` at `i`.
pub open spec fn first_fit(ks: Seq<TokenKind>, s: Seq<char>, i: int) -> Option<TokenKind>
    decreases ks.len(),
{
    if ks.len() == 0 {
        None
    } else if starts_with(s, i, ks[0].spec_text()) {
        Some(ks[0])
    } else {
        first_fit(ks.drop_first(), s, i)
    }
}

/// The reserved symbol that is matched at `i`: the first of the table, which
/// is ordered longest first, that fits.
pub open spec fn symbol_at(s: Seq<char>, i: int) -> Option<TokenKind> {
    first_fit(symbols(), s, i)
}

/// The class and the end of the token that the grammar matches at `i`.
pub open spec fn scan(s: Seq<char>, i: int) -> Option<(TokenClass, int)> {
    if !(0 <= i < s.len()) {
        None
    } else if is_white_space(s[i]) {
        Some((TokenClass::WhiteSpace, run_end(s, i, CharClass::WhiteSpace)))
    } else if starts_with(s, i, seq!['/', '/']) {
        Some((TokenClass::Comment, run_end(s, i + 2, CharClass::NotLineBreak)))
    } else if starts_with(s, i, seq!['/', '*']) && block_comment_end(s, i + 2) is Some {
        Some((TokenClass::Comment, block_comment_end(s, i + 2).unwrap()))
    } else if s[i] == '"' && string_end(s, i + 1) is Some {
        Some((TokenClass::String, string_end(s, i + 1).unwrap()))
    } else if is_decimal_digit(s[i]) {
        Some((TokenClass::Number, number_end(s, i)))
    } else if is_ident_start(s[i]) {
        Some((TokenClass::Identifier, run_end(s, i + 1, CharClass::IdentContinue)))
    } else {
        match symbol_at(s, i) {
            Some(k) => Some((TokenClass::Symbol, i + k.spec_text().len())),
            None => None,
        }
    }
}

/// The kind of a token of class `cls` spelled `lexeme`; `None` for a symbol
/// that is not reserved.
pub open spec fn class_kind(cls: TokenClass, lexeme: Seq<char>) -> Option<TokenKind> {
    match cls {
        TokenClass::Identifier => match keyword_of(lexeme) {
            Some(k) => Some(k),
            None => Some(TokenKind::Identifier),
        },
        TokenClass::Symbol => symbol_of(lexeme),
        TokenClass::Comment => Some(TokenKind::Comment),
        TokenClass::String => Some(TokenKind::String),
        TokenClass::Number => Some(TokenKind::Number),
        TokenClass::WhiteSpace => None,
    }
}

/// The span of the characters `s[i..j]`: byte offsets of both ends, and the
/// line and column of `s[i]`.
pub open spec fn span_at(s: Seq<char>, i: int, j: int) -> Span {
    let pos = advance(s.take(i), (1, 1));
    Span {
        start: utf8_len(s.take(i)) as usize,
        end: utf8_len(s.take(j)) as usize,
        line: pos.0 as usize,
        column: pos.1 as usize,
    }
}

/// The result of lexing `s` from position `i` on.
pub open spec fn lex_from(s: Seq<char>, i: int) -> Result<Seq<SpecToken>, SpecLexError>
    decreases s.len() - i,
{
    if i < 0 || i >= s.len() {
        Ok(seq![])
    } else {
        match scan(s, i) {
            None => Err(SpecLexError { message: "unrecognized token"@, span: span_at(s, i, i) }),
            Some((cls, j)) => {
                proof {
                    lemma_scan_advances(s, i);
                }
                if cls == TokenClass::WhiteSpace {
                    lex_from(s, j)
                } else {
                    let lexeme = s.subrange(i, j);
                    match class_kind(cls, lexeme) {
                        None => Err(
                            SpecLexError {
                                message: "unknown symbol: "@ + lexeme,
                                span: span_at(s, i, j),
                            },
                        ),
                        Some(kind) => match lex_from(s, j) {
                            Ok(rest) => Ok(
                                seq![SpecToken { kind, lexeme, span: span_at(s, i, j) }] + rest,
                            ),
                            Err(e) => Err(e),
                        },
                    }
                }
            },
        }
    }
}

/// The result of lexing `s`.
pub open spec fn spec_lex(s: Seq<char>) -> Result<Seq<SpecToken>, SpecLexError> {
    lex_from(s, 0)
}

/// `ts` followed by the tokens of `r`, or the error of `r`.
pub open spec fn prepend(ts: Seq<SpecToken>, r: Result<Seq<SpecToken>, SpecLexError>) -> Result<
    Seq<SpecToken>,
    SpecLexError,
> {
    match r {
        Ok(rest) => Ok(ts + rest),
        Err(e) => Err(e),
    }
}

proof fn lemma_run_end(s: Seq<char>, i: int, k: CharClass)
    requires
        0 <= i <= s.len(),
    ensures
        i <= run_end(s, i, k) <= s.len(),
        forall|p: int| i <= p < run_end(s, i, k) ==> in_class(s[p], k),
        run_end(s, i, k) < s.len() ==> !in_class(s[run_end(s, i, k)], k),
    decreases s.len() - i,
{
    if i < s.len() && in_class(s[i], k) {
        lemma_run_end(s, i + 1, k);
    }
}

proof fn lemma_block_comment_end(s: Seq<char>, i: int)
    requires
        0 <= i,
    ensures
        block_comment_end(s, i) matches Some(j) ==> i + 2 <= j <= s.len(),
    decreases s.len() - i,
{
    if !(i + 1 >= s.len()) && !(s[i] == '*' && s[i + 1] == '/') {
        lemma_block_comment_end(s, i + 1);
    }
}

proof fn lemma_string_end(s: Seq<char>, i: int)
    requires
        0 <= i,
    ensures
        string_end(s, i) matches Some(j) ==> i < j <= s.len(),
    decreases s.len() - i,
{
    if i < s.len() && s[i] != '"' {
        if s[i] == '\\' {
            if i + 1 < s.len() {
                lemma_string_end(s, i + 2);
            }
        } else {
            lemma_string_end(s, i + 1);
        }
    }
}

proof fn lemma_first_fit(ks: Seq<TokenKind>, s: Seq<char>, i: int)
    ensures
        first_fit(ks, s, i) matches Some(k) ==> starts_with(s, i, k.spec_text()) && ks.contains(k),
    decreases ks.len(),
{
    if ks.len() > 0 {
        lemma_first_fit(ks.drop_first(), s, i);
        if !starts_with(s, i, ks[0].spec_text()) {
            if let Some(k) = first_fit(ks.drop_first(), s, i) {
                let n = choose|n: int| 0 <= n < ks.drop_first().len() && ks.drop_first()[n] == k;
                assert(ks[n + 1] == k);
            }
        } else {
            assert(ks[0] == ks[0]);
        }
    }
}

/// Every reserved symbol has a nonempty spelling.
pub proof fn lemma_symbols_nonempty(k: TokenKind)
    requires
        symbols().contains(k),
    ensures
        k.spec_text().len() > 0,
{
    let n = choose|n: int| 0 <= n < symbols().len() && symbols()[n] == k;
    assert(symbols()[n].spec_text().len() > 0);
}

/// A token that the grammar matches is nonempty and lies within the input.
pub proof fn lemma_scan_advances(s: Seq<char>, i: int)
    ensures
        scan(s, i) matches Some((_, j)) ==> i < j <= s.len(),
{
    if 0 <= i < s.len() {
        lemma_run_end(s, i, CharClass::WhiteSpace);
        lemma_run_end(s, i, CharClass::DecimalDigit);
        if i + 2 <= s.len() {
            lemma_run_end(s, i + 2, CharClass::NotLineBreak);
            lemma_block_comment_end(s, i + 2);
        }
        lemma_string_end(s, i + 1);
        lemma_run_end(s, i + 1, CharClass::IdentContinue);
        if is_decimal_digit(s[i]) {
            lemma_number_end(s, i);
        }
        lemma_first_fit(symbols(), s, i);
        if let Some(k) = symbol_at(s, i) {
            lemma_symbols_nonempty(k);
        }
    }
}

proof fn lemma_number_end(s: Seq<char>, i: int)
    requires
        0 <= i < s.len(),
        is_decimal_digit(s[i]),
    ensures
        i < number_end(s, i) <= s.len(),
{
    let a = run_end(s, i, CharClass::DecimalDigit);
    lemma_run_end(s, i, CharClass::DecimalDigit);
    if a + 1 < s.len() {
        lemma_run_end(s, a + 1, CharClass::DecimalDigit);
    }
    let b = if a + 1 < s.len() && s[a] == '.' && is_decimal_digit(s[a + 1]) {
        run_end(s, a + 1, CharClass::DecimalDigit)
    } else {
        a
    };
    if b + 2 <= s.len() {
        lemma_run_end(s, b + 2, CharClass::DecimalDigit);
    }
    if b + 1 <= s.len() {
        lemma_run_end(s, b + 1, CharClass::DecimalDigit);
    }
}

/// Whether `c` belongs to class `k`.
fn class_contains(c: char, k: CharClass) -> (r: bool)
    ensures
        r == in_class(c, k),
{
    match k {
        CharClass::WhiteSpace => white_space(c),
        CharClass::DecimalDigit => decimal_digit(c),
        CharClass::IdentContinue => ident_continue(c),
        CharClass::NotLineBreak => c != '\r' && c != '\n',
    }
}

/// The end of the longest run of class `k` that starts at `i`.
fn scan_run(s: &Vec<char>, i: usize, k: CharClass) -> (r: usize)
    requires
        i <= s.len(),
    ensures
        r == run_end(s@, i as int, k),
{
    let mut j = i;
    while j < s.len() && class_contains(s[j], k)
        invariant
            i <= j <= s.len(),
            run_end(s@, i as int, k) == run_end(s@, j as int, k),
        decreases s.len() - j,
    {
        j = j + 1;
    }
    j
}

/// The end of the first `*/` that starts at or after `i`.
fn find_block_comment_end(s: &Vec<char>, i: usize) -> (r: Option<usize>)
    requires
        i <= s.len(),
    ensures
        match r {
            Some(j) => block_comment_end(s@, i as int) == Some(j as int),
            None => block_comment_end(s@, i as int) is None,
        },
{
    let mut j = i;
    while s.len() - j > 1
        invariant
            i <= j <= s.len(),
            block_comment_end(s@, i as int) == block_comment_end(s@, j as int),
        decreases s.len() - j,
    {
        if s[j] == '*' && s[j + 1] == '/' {
            return Some(j + 2);
        }
        j = j + 1;
    }
    None
}

/// The end of the string literal whose body starts at `i`.
fn find_string_end(s: &Vec<char>, i: usize) -> (r: Option<usize>)
    requires
        i <= s.len(),
    ensures
        match r {
            Some(j) => string_end(s@, i as int) == Some(j as int),
            None => string_end(s@, i as int) is None,
        },
{
    let mut j = i;
    while j < s.len()
        invariant
            i <= j <= s.len(),
            string_end(s@, i as int) == string_end(s@, j as int),
        decreases s.len() - j,
    {
        if s[j] == '"' {
            return Some(j + 1);
        } else if s[j] == '\\' {
            if s.len() - j > 1 {
                j = j + 2;
            } else {
                return None;
            }
        } else {
            j = j + 1;
        }
    }
    None
}

/// The end of the number that starts at `i`.
fn find_number_end(s: &Vec<char>, i: usize) -> (r: usize)
    requires
        i < s.len(),
    ensures
        r == number_end(s@, i as int),
{
    proof {
        lemma_run_end(s@, i as int, CharClass::DecimalDigit);
    }
    let a = scan_run(s, i, CharClass::DecimalDigit);
    let b = if s.len() - a > 1 && s[a] == '.' && decimal_digit(s[a + 1]) {
        scan_run(s, a + 1, CharClass::DecimalDigit)
    } else {
        a
    };
    proof {
        if a + 1 < s.len() {
            lemma_run_end(s@, a + 1, CharClass::DecimalDigit);
        }
    }
    if b < s.len() && (s[b] == 'e' || s[b] == 'E') {
        let k = if s.len() - b > 1 && (s[b + 1] == '+' || s[b + 1] == '-') {
            b + 2
        } else {
            b + 1
        };
        if k < s.len() && decimal_digit(s[k]) {
            return scan_run(s, k, CharClass::DecimalDigit);
        }
    }
    b
}

/// The first kind of `table` whose spelling occurs in `s` at `i`.
fn find_fit(table: &Vec<TokenKind>, s: &Vec<char>, i: usize) -> (r: Option<TokenKind>)
    requires
        i <= s.len(),
    ensures
        r == first_fit(table@, s@, i as int),
{
    let mut n: usize = 0;
    assert(table@.skip(0) =~= table@);
    while n < table.len()
        invariant
            n <= table.len(),
            i <= s.len(),
            first_fit(table@, s@, i as int) == first_fit(table@.skip(n as int), s@, i as int),
        decreases table.len() - n,
    {
        let kind = table[n];
        let t = kind.text_chars();
        assert(table@.skip(n as int).drop_first() =~= table@.skip(n + 1));
        if chars_match(s, i, &t) {
            return Some(kind);
        }
        n = n + 1;
    }
    None
}

/// The class and the end of the token that the grammar matches at `i`.
fn scan_at(s: &Vec<char>, symbol_table: &Vec<TokenKind>, i: usize) -> (r: Option<(TokenClass, usize)>)
    requires
        i < s.len(),
        symbol_table@ == symbols(),
    ensures
        match r {
            Some((cls, j)) => scan(s@, i as int) == Some((cls, j as int)),
            None => scan(s@, i as int) is None,
        },
{
    let c = s[i];
    if white_space(c) {
        return Some((TokenClass::WhiteSpace, scan_run(s, i, CharClass::WhiteSpace)));
    }
    let slash_next = i + 1 < s.len() && c == '/';
    if slash_next && s[i + 1] == '/' {
        proof {
            assert(s@.subrange(i as int, i + 2) =~= seq!['/', '/']);
        }
        return Some((TokenClass::Comment, scan_run(s, i + 2, CharClass::NotLineBreak)));
    }
    proof {
        if starts_with(s@, i as int, seq!['/', '/']) {
            assert(s@.subrange(i as int, i + 2)[1] == '/');
        }
        if starts_with(s@, i as int, seq!['/', '*']) {
            assert(s@.subrange(i as int, i + 2)[0] == '/');
            assert(s@.subrange(i as int, i + 2)[1] == '*');
        }
    }
    if slash_next && s[i + 1] == '*' {
        proof {
            assert(s@.subrange(i as int, i + 2) =~= seq!['/', '*']);
        }
        if let Some(j) = find_block_comment_end(s, i + 2) {
            return Some((TokenClass::Comment, j));
        }
    }
    if c == '"' {
        if let Some(j) = find_string_end(s, i + 1) {
            return Some((TokenClass::String, j));
        }
    }
    if decimal_digit(c) {
        return Some((TokenClass::Number, find_number_end(s, i)));
    }
    if ident_start(c) {
        return Some((TokenClass::Identifier, scan_run(s, i + 1, CharClass::IdentContinue)));
    }
    match find_fit(symbol_table, s, i) {
        Some(k) => {
            proof {
                lemma_first_fit(symbols(), s@, i as int);
            }
            let t = k.text_chars();
            Some((TokenClass::Symbol, i + t.len()))
        },
        None => None,
    }
}

/// The number of UTF-8 bytes of `s[from..to]`.
fn utf8_len_range(s: &Vec<char>, from: usize, to: usize) -> (r: usize)
    requires
        from <= to <= s.len(),
        utf8_len(s@.subrange(from as int, to as int)) <= usize::MAX,
    ensures
        r == utf8_len(s@.subrange(from as int, to as int)),
{
    let mut n: usize = 0;
    let mut k = from;
    while k < to
        invariant
            from <= k <= to <= s.len(),
            n == utf8_len(s@.subrange(from as int, k as int)),
            utf8_len(s@.subrange(from as int, to as int)) <= usize::MAX,
        decreases to - k,
    {
        proof {
            assert(s@.subrange(from as int, k + 1).drop_last() =~= s@.subrange(from as int, k as int));
            lemma_utf8_len_split(s@, from as int, k + 1, to as int);
        }
        n = n + char_utf8_width(s[k]);
        k = k + 1;
    }
    n
}

/// Splitting a range splits its encoded length.
pub proof fn lemma_utf8_len_split(s: Seq<char>, a: int, b: int, c: int)
    requires
        0 <= a <= b <= c <= s.len(),
    ensures
        utf8_len(s.subrange(a, c)) == utf8_len(s.subrange(a, b)) + utf8_len(s.subrange(b, c)),
{
    assert(s.subrange(a, c) =~= s.subrange(a, b) + s.subrange(b, c));
    lemma_utf8_len_concat(s.subrange(a, b), s.subrange(b, c));
}

/// `str::len`: the number of bytes of the UTF-8 encoding of `s`.
///
/// Trusted: std documents that `len` is the length in bytes, and that a
/// slice, such as the bytes of a `str`, spans at most `isize::MAX` bytes
/// (`slice::from_raw_parts`); the contract claims exactly these two facts.
#[verifier::external_body]
fn utf8_byte_count(s: &str) -> (n: usize)
    ensures
        n == vstd::utf8::encode_utf8(s@).len(),
        n <= isize::MAX,
{
    s.len()
}

/// What lexing does at position `i`: the next token and where lexing goes
/// on (`None` for whitespace, which is skipped), or the error that stops it.
fn next_token(
    s: &Vec<char>,
    keyword_table: &Vec<TokenKind>,
    symbol_table: &Vec<TokenKind>,
    i: usize,
    offset: usize,
    line: usize,
    column: usize,
) -> (r: Result<(Option<Token>, usize), LexError>)
    requires
        keyword_table@ == keywords(),
        symbol_table@ == symbols(),
        i < s.len(),
        utf8_len(s@) <= usize::MAX,
        offset == utf8_len(s@.take(i as int)),
        (line as int, column as int) == advance(s@.take(i as int), (1, 1)),
    ensures
        match r {
            Ok((Some(t), j)) => i < j <= s.len() && lex_from(s@, i as int) == prepend(
                seq![t@],
                lex_from(s@, j as int),
            ),
            Ok((None, j)) => i < j <= s.len() && lex_from(s@, i as int) == lex_from(s@, j as int),
            Err(e) => lex_from(s@, i as int) == Err::<Seq<SpecToken>, _>(e@),
        },
{
    proof {
        lemma_scan_advances(s@, i as int);
    }
    let scanned = scan_at(s, symbol_table, i);
    let (cls, j) = match scanned {
        Some(found) => found,
        None => {
            let message = "unrecognized token".to_owned();
            return Err(LexError { message, span: Span { start: offset, end: offset, line, column } });
        },
    };
    if cls == TokenClass::WhiteSpace {
        return Ok((None, j));
    }
    proof {
        lemma_utf8_len_split(s@, 0, i as int, j as int);
        lemma_utf8_len_split(s@, 0, j as int, s.len() as int);
        assert(s@.subrange(0, i as int) =~= s@.take(i as int));
        assert(s@.subrange(0, j as int) =~= s@.take(j as int));
        assert(s@.subrange(0, s.len() as int) =~= s@);
    }
    let end = offset + utf8_len_range(s, i, j);
    let span = Span { start: offset, end, line, column };
    let lexeme = string_from_chars(s, i, j);
    let kind = match cls {
        TokenClass::Identifier => match lookup_range(keyword_table, s, i, j) {
            Some(k) => k,
            None => TokenKind::Identifier,
        },
        TokenClass::Symbol => match lookup_range(symbol_table, s, i, j) {
            Some(k) => k,
            None => {
                let mut message = "unknown symbol: ".to_owned();
                message.append(lexeme.as_str());
                return Err(LexError { message, span });
            },
        },
        TokenClass::Comment => TokenKind::Comment,
        TokenClass::String => TokenKind::String,
        _ => TokenKind::Number,
    };
    Ok((Some(Token { kind, lexeme, span }), j))
}

proof fn lemma_prepend_token(
    ts: Seq<SpecToken>,
    t: SpecToken,
    r: Result<Seq<SpecToken>, SpecLexError>,
)
    ensures
        prepend(ts.push(t), r) == prepend(ts, prepend(seq![t], r)),
{
    if let Ok(rest) = r {
        assert(ts.push(t) + rest =~= ts + (seq![t] + rest));
    }
}

/// Splits the input into tokens.
///
/// Whitespace is skipped; every other token carries its kind, its exact text
/// and its span. Lexing stops at the first position where no token matches
/// ("unrecognized token"). The "unknown symbol" error for a matched symbol
/// that is not reserved is kept, but never arises (`lemma_scan_has_kind`).
/// The UTF-8 encoding of any input fits in `isize`, so byte offsets never
/// wrap.
pub fn lex(input: &str) -> (r: Result<Vec<Token>, LexError>)
    ensures
        utf8_len(input@) <= isize::MAX,
        match r {
            Ok(tokens) => spec_lex(input@) == Ok::<_, SpecLexError>(
                tokens@.map_values(|t: Token| t@),
            ),
            Err(e) => spec_lex(input@) == Err::<Seq<SpecToken>, _>(e@),
        },
{
    let s = chars_of(input);
    let total = utf8_byte_count(input);
    proof {
        lemma_utf8_len_encode(s@);
        lemma_utf8_len_at_least_len(s@);
    }
    let keyword_table = keyword_kinds();
    let symbol_table = symbol_kinds();
    let mut tokens: Vec<Token> = Vec::new();
    let mut i: usize = 0;
    let mut offset: usize = 0;
    let mut line: usize = 1;
    let mut column: usize = 1;
    proof {
        assert(s@.take(0) =~= Seq::<char>::empty());
        if let Ok(rest) = lex_from(s@, 0) {
            assert(tokens@.map_values(|t: Token| t@) + rest =~= rest);
        }
    }
    while i < s.len()
        invariant
            s@ == input@,
            keyword_table@ == keywords(),
            symbol_table@ == symbols(),
            i <= s.len(),
            utf8_len(s@) == total,
            total <= isize::MAX,
            s.len() <= total,
            offset == utf8_len(s@.take(i as int)),
            (line as int, column as int) == advance(s@.take(i as int), (1, 1)),
            spec_lex(s@) == prepend(tokens@.map_values(|t: Token| t@), lex_from(s@, i as int)),
        decreases s.len() - i,
    {
        let step = next_token(&s, &keyword_table, &symbol_table, i, offset, line, column);
        let (token, j) = match step {
            Ok(found) => found,
            Err(e) => {
                return Err(e);
            },
        };
        proof {
            lemma_advance_bounds(s@.take(i as int), (1, 1));
            lemma_utf8_len_split(s@, 0, i as int, j as int);
            lemma_utf8_len_split(s@, 0, j as int, s.len() as int);
            assert(s@.subrange(0, i as int) =~= s@.take(i as int));
            assert(s@.subrange(0, j as int) =~= s@.take(j as int));
            assert(s@.subrange(0, s.len() as int) =~= s@);
            assert(s@.take(j as int) =~= s@.take(i as int) + s@.subrange(i as int, j as int));
            lemma_advance_concat(s@.take(i as int), s@.subrange(i as int, j as int), (1, 1));
            lemma_line_len_bounds(s@.subrange(i as int, j as int));
        }
        offset = offset + utf8_len_range(&s, i, j);
        advance_range(&s, i, j, &mut line, &mut column);
        if let Some(t) = token {
            proof {
                lemma_prepend_token(tokens@.map_values(|t: Token| t@), t@, lex_from(s@, j as int));
                assert(tokens@.push(t).map_values(|t: Token| t@) =~= tokens@.map_values(
                    |t: Token| t@,
                ).push(t@));
            }
            tokens.push(t);
        }
        i = j;
    }
    proof {
        assert(tokens@.map_values(|t: Token| t@) + Seq::<SpecToken>::empty() =~= tokens@.map_values(
            |t: Token| t@,
        ));
    }
    Ok(tokens)
}

/// The token `t` covers the characters `s[b.0..b.1]`: the grammar matches
/// exactly that text there, in a class other than whitespace that gives `t`
/// its kind; its lexeme is that text and its span is that range.
pub open spec fn token_at(s: Seq<char>, t: SpecToken, b: (int, int)) -> bool {
    &&& 0 <= b.0 < b.1 <= s.len()
    &&& scan(s, b.0) matches Some((cls, e)) && e == b.1 && cls != TokenClass::WhiteSpace
        && class_kind(cls, t.lexeme) == Some(t.kind)
    &&& t.lexeme == s.subrange(b.0, b.1)
    &&& t.span == span_at(s, b.0, b.1)
}

/// Whether all of `s[a..b]` is whitespace.
pub open spec fn all_white_space(s: Seq<char>, a: int, b: int) -> bool {
    forall|p: int| a <= p < b ==> is_white_space(#[trigger] s[p])
}

/// Where the gap before token `k` starts: at `from` for the first token,
/// else where token `k - 1` ends.
pub open spec fn gap_start(from: int, bounds: Seq<(int, int)>, k: int) -> int {
    if k == 0 {
        from
    } else {
        bounds[k - 1].1
    }
}

/// Where the gap before token `k` ends: where token `k` starts, or at the
/// end of `s` after the last token.
pub open spec fn gap_end(s: Seq<char>, bounds: Seq<(int, int)>, k: int) -> int {
    if k == bounds.len() {
        s.len() as int
    } else {
        bounds[k].0
    }
}

/// The gap before token `k` is a well-ordered range of whitespace.
pub open spec fn gap_ok(s: Seq<char>, from: int, bounds: Seq<(int, int)>, k: int) -> bool {
    &&& gap_start(from, bounds, k) <= gap_end(s, bounds, k)
    &&& all_white_space(s, gap_start(from, bounds, k), gap_end(s, bounds, k))
}

/// The tokens `ts` lie in `s[from..]` at the character ranges `bounds`, in
/// order and without overlap, and every character outside them is
/// whitespace.
pub open spec fn token_layout(
    s: Seq<char>,
    from: int,
    ts: Seq<SpecToken>,
    bounds: Seq<(int, int)>,
) -> bool {
    &&& bounds.len() == ts.len()
    &&& forall|k: int| 0 <= k < ts.len() ==> #[trigger] token_at(s, ts[k], bounds[k])
    &&& forall|k: int| 0 <= k <= ts.len() ==> #[trigger] gap_ok(s, from, bounds, k)
}

proof fn layout_witness(s: Seq<char>, i: int) -> (bounds: Seq<(int, int)>)
    requires
        0 <= i <= s.len(),
        lex_from(s, i) is Ok,
    ensures
        token_layout(s, i, lex_from(s, i)->Ok_0, bounds),
    decreases s.len() - i,
{
    if i >= s.len() {
        let bounds: Seq<(int, int)> = seq![];
        assert(gap_ok(s, i, bounds, 0));
        bounds
    } else {
        lemma_scan_advances(s, i);
        let (cls, j) = scan(s, i).unwrap();
        let rb = layout_witness(s, j);
        let rest = lex_from(s, j)->Ok_0;
        if cls == TokenClass::WhiteSpace {
            lemma_run_end(s, i, CharClass::WhiteSpace);
            assert(gap_ok(s, j, rb, 0));
            assert forall|k: int| 0 <= k <= rest.len() implies #[trigger] gap_ok(s, i, rb, k) by {
                assert(gap_ok(s, j, rb, k));
            }
            rb
        } else {
            let ts = lex_from(s, i)->Ok_0;
            let bounds = seq![(i, j)] + rb;
            assert(ts =~= seq![ts[0]] + rest);
            assert(token_at(s, ts[0], bounds[0]));
            assert forall|k: int| 0 <= k < ts.len() implies #[trigger] token_at(
                s,
                ts[k],
                bounds[k],
            ) by {
                if k > 0 {
                    assert(token_at(s, rest[k - 1], rb[k - 1]));
                    assert(ts[k] == rest[k - 1]);
                    assert(bounds[k] == rb[k - 1]);
                }
            }
            assert forall|k: int| 0 <= k <= ts.len() implies #[trigger] gap_ok(s, i, bounds, k) by {
                if k > 0 {
                    assert(gap_ok(s, j, rb, k - 1));
                } else {
                    assert(gap_ok(s, j, rb, 0));
                }
            }
            bounds
        }
    }
}

/// When lexing succeeds, every token's lexeme is the text that it stands
/// for in the input, its span is where that text lies, the tokens come in
/// input order without overlap, and all the input outside them is
/// whitespace: lexing drops nothing but whitespace.
pub proof fn lemma_lex_layout(s: Seq<char>)
    requires
        spec_lex(s) is Ok,
    ensures
        exists|bounds: Seq<(int, int)>| token_layout(s, 0, spec_lex(s)->Ok_0, bounds),
{
    let bounds = layout_witness(s, 0);
    assert(token_layout(s, 0, spec_lex(s)->Ok_0, bounds));
}

/// Every token class that the grammar matches gives the token a kind: the
/// "unknown symbol" error of the lexer never arises.
pub proof fn lemma_scan_has_kind(s: Seq<char>, i: int)
    ensures
        scan(s, i) matches Some((cls, j)) ==> (cls != TokenClass::WhiteSpace ==> class_kind(
            cls,
            s.subrange(i, j),
        ) is Some),
{
    if let Some((cls, j)) = scan(s, i) {
        if cls == TokenClass::Symbol {
            let k = symbol_at(s, i).unwrap();
            lemma_first_fit(symbols(), s, i);
            assert(s.subrange(i, j) == k.spec_text());
            lemma_lookup_own_text(symbols(), k);
        }
    }
}

/// No reserved symbol starts with a quote, and the only one that starts
/// with a slash is the slash itself.
proof fn lemma_symbol_spellings(n: int)
    requires
        0 <= n < symbols().len(),
    ensures
        symbols()[n].spec_text()[0] != '"',
        symbols()[n].spec_text()[0] == '/' ==> symbols()[n].spec_text().len() == 1,
{
}

/// What the first characters of a token say about its kind.
pub open spec fn kind_fits_first_char(t: SpecToken) -> bool {
    &&& t.lexeme.len() > 0
    &&& !is_white_space(t.lexeme[0])
    &&& t.lexeme[0] == '"' ==> t.kind == TokenKind::String
    &&& t.lexeme.len() >= 2 && t.lexeme[0] == '/' && (t.lexeme[1] == '/' || t.lexeme[1] == '*')
        ==> t.kind == TokenKind::Comment
    &&& is_decimal_digit(t.lexeme[0]) ==> t.kind == TokenKind::Number
    &&& is_ident_start(t.lexeme[0]) ==> t.kind == match keyword_of(t.lexeme) {
        Some(k) => k,
        None => TokenKind::Identifier,
    }
}

/// The kind of a token follows from its first characters.
pub proof fn lemma_token_kind(s: Seq<char>, t: SpecToken, b: (int, int))
    requires
        token_at(s, t, b),
    ensures
        kind_fits_first_char(t),
{
    let a = b.0;
    assert(t.lexeme[0] == s[a]);
    if t.lexeme.len() >= 2 {
        assert(t.lexeme[1] == s[a + 1]);
        if t.lexeme[0] == '/' && (t.lexeme[1] == '/' || t.lexeme[1] == '*') {
            assert(s.subrange(a, a + 2) =~= seq![t.lexeme[0], t.lexeme[1]]);
        }
    }
    if let Some(k) = symbol_at(s, a) {
        lemma_first_fit(symbols(), s, a);
        let n = choose|n: int| 0 <= n < symbols().len() && symbols()[n] == k;
        lemma_symbol_spellings(n);
        assert(s.subrange(a, a + k.spec_text().len())[0] == k.spec_text()[0]);
    }
}

/// When lexing succeeds, the kind of every token follows from its first
/// characters: a quote starts a string, `//` or `/*` a comment, a digit a
/// number, a letter or underscore an identifier or keyword; no token starts
/// with whitespace.
pub proof fn lemma_lex_token_kinds(s: Seq<char>)
    requires
        spec_lex(s) is Ok,
    ensures
        forall|k: int|
            0 <= k < spec_lex(s)->Ok_0.len() ==> kind_fits_first_char(
                #[trigger] spec_lex(s)->Ok_0[k],
            ),
{
    let ts = spec_lex(s)->Ok_0;
    let bounds = layout_witness(s, 0);
    assert forall|k: int| 0 <= k < ts.len() implies kind_fits_first_char(#[trigger] ts[k]) by {
        assert(token_at(s, ts[k], bounds[k]));
        lemma_token_kind(s, ts[k], bounds[k]);
    }
}

/// Encoding distributes over concatenation.
pub proof fn lemma_encode_concat(a: Seq<char>, b: Seq<char>)
    ensures
        vstd::utf8::encode_utf8(a + b) == vstd::utf8::encode_utf8(a) + vstd::utf8::encode_utf8(b),
    decreases a.len(),
{
    if a.len() == 0 {
        assert(a + b =~= b);
        assert(vstd::utf8::encode_utf8(a) =~= Seq::<u8>::empty());
        assert(Seq::<u8>::empty() + vstd::utf8::encode_utf8(b) =~= vstd::utf8::encode_utf8(b));
    } else {
        assert((a + b).drop_first() =~= a.drop_first() + b);
        assert((a + b)[0] == a[0]);
        lemma_encode_concat(a.drop_first(), b);
        let e0 = vstd::utf8::encode_scalar(a[0] as u32);
        assert(e0 + (vstd::utf8::encode_utf8(a.drop_first()) + vstd::utf8::encode_utf8(b)) =~= (e0
            + vstd::utf8::encode_utf8(a.drop_first())) + vstd::utf8::encode_utf8(b));
    }
}

/// The bytes of `s[x..y]` are the bytes of `s` between the encoded lengths
/// of `s[..x]` and `s[..y]`.
pub proof fn lemma_encode_range(s: Seq<char>, x: int, y: int)
    requires
        0 <= x <= y <= s.len(),
    ensures
        vstd::utf8::encode_utf8(s.subrange(x, y)) == vstd::utf8::encode_utf8(s).subrange(
            utf8_len(s.take(x)) as int,
            utf8_len(s.take(y)) as int,
        ),
{
    let e = |c: Seq<char>| vstd::utf8::encode_utf8(c);
    assert(s =~= s.take(x) + s.subrange(x, y) + s.skip(y));
    lemma_encode_concat(s.take(x) + s.subrange(x, y), s.skip(y));
    lemma_encode_concat(s.take(x), s.subrange(x, y));
    lemma_utf8_len_encode(s.take(x));
    lemma_utf8_len_encode(s.subrange(x, y));
    assert(s.take(y) =~= s.take(x) + s.subrange(x, y));
    lemma_utf8_len_concat(s.take(x), s.subrange(x, y));
    assert(e(s).subrange(utf8_len(s.take(x)) as int, utf8_len(s.take(y)) as int) =~= e(
        s.subrange(x, y),
    ));
}

/// The encoded length of a prefix grows with the prefix, strictly when it
/// grows by at least one character.
proof fn lemma_utf8_len_prefix(s: Seq<char>, x: int, y: int)
    requires
        0 <= x <= y <= s.len(),
    ensures
        utf8_len(s.take(x)) + (y - x) <= utf8_len(s.take(y)) <= utf8_len(s),
{
    lemma_utf8_len_split(s, 0, x, y);
    lemma_utf8_len_split(s, 0, y, s.len() as int);
    lemma_utf8_len_at_least_len(s.subrange(x, y));
    assert(s.subrange(0, x) =~= s.take(x));
    assert(s.subrange(0, y) =~= s.take(y));
    assert(s.subrange(0, s.len() as int) =~= s);
}

/// When lexing succeeds on an input whose UTF-8 encoding fits in `usize`
/// (as every `str` does, see [`lex`]), every token's span is a nonempty byte
/// range of the input, spans come in order without overlap, and the bytes
/// of each span are the encoding of the token's lexeme.
pub proof fn lemma_lex_spans(s: Seq<char>)
    requires
        spec_lex(s) is Ok,
        utf8_len(s) <= usize::MAX,
    ensures
        ({
            let ts = spec_lex(s)->Ok_0;
            &&& forall|k: int|
                0 <= k < ts.len() ==> #[trigger] ts[k].span.start < ts[k].span.end <= utf8_len(s)
            &&& forall|k: int|
                0 <= k < ts.len() ==> vstd::utf8::encode_utf8(#[trigger] ts[k].lexeme)
                    == vstd::utf8::encode_utf8(s).subrange(
                    ts[k].span.start as int,
                    ts[k].span.end as int,
                )
            &&& forall|k: int|
                0 <= k < ts.len() - 1 ==> #[trigger] ts[k].span.end <= ts[k + 1].span.start
        }),
{
    let ts = spec_lex(s)->Ok_0;
    let bounds = layout_witness(s, 0);
    assert forall|k: int| 0 <= k < ts.len() implies #[trigger] ts[k].span.start < ts[k].span.end
        <= utf8_len(s) && vstd::utf8::encode_utf8(ts[k].lexeme) == vstd::utf8::encode_utf8(
        s,
    ).subrange(ts[k].span.start as int, ts[k].span.end as int) by {
        assert(token_at(s, ts[k], bounds[k]));
        lemma_utf8_len_prefix(s, bounds[k].0, bounds[k].1);
        lemma_encode_range(s, bounds[k].0, bounds[k].1);
    }
    assert forall|k: int| 0 <= k < ts.len() - 1 implies #[trigger] ts[k].span.end <= ts[k
        + 1].span.start by {
        assert(token_at(s, ts[k], bounds[k]));
        assert(token_at(s, ts[k + 1], bounds[k + 1]));
        assert(gap_ok(s, 0, bounds, k + 1));
        lemma_utf8_len_prefix(s, bounds[k].1, bounds[k + 1].0);
        lemma_utf8_len_prefix(s, bounds[k + 1].0, bounds[k + 1].1);
    }
}

/// The line and column of a span that starts at character `a`: one plus the
/// number of newlines before it, and one plus the number of characters since
/// the last newline before it (since the start when there is none).
pub proof fn lemma_span_position(s: Seq<char>, a: int, b: int)
    requires
        0 <= a <= b <= s.len(),
        a < usize::MAX,
    ensures
        span_at(s, a, b).line == 1 + newline_count(s.take(a)),
        span_at(s, a, b).column == 1 + line_tail_len(s.take(a)),
{
    lemma_advance_from_start(s.take(a));
    lemma_line_len_bounds(s.take(a));
    lemma_line_tail_len_bound(s.take(a));
}

/// The span `sp` starts at character `a` of `s`: its start is the byte offset
/// of that character, its line one plus the newlines before it, its column
/// one plus the characters since the last of them.
pub open spec fn position_at(s: Seq<char>, a: int, sp: Span) -> bool {
    &&& 0 <= a <= s.len()
    &&& sp.start == utf8_len(s.take(a))
    &&& sp.line == 1 + newline_count(s.take(a))
    &&& sp.column == 1 + line_tail_len(s.take(a))
}

/// The span `sp` starts at some character of `s`.
pub open spec fn positioned(s: Seq<char>, sp: Span) -> bool {
    exists|a: int| position_at(s, a, sp)
}

/// Every token, and the error when lexing fails, starts where its span says:
/// at a character whose byte offset is the span's start, on the line after
/// the newlines before it and at the column after the characters since the
/// last of them.
pub proof fn lemma_lex_positions(s: Seq<char>)
    requires
        utf8_len(s) <= usize::MAX,
    ensures
        spec_lex(s) matches Ok(ts) ==> forall|k: int|
            0 <= k < ts.len() ==> positioned(s, #[trigger] ts[k].span),
        spec_lex(s) matches Err(e) ==> positioned(s, e.span),
{
    lemma_utf8_len_at_least_len(s);
    match spec_lex(s) {
        Ok(ts) => {
            let bounds = layout_witness(s, 0);
            assert forall|k: int| 0 <= k < ts.len() implies positioned(s, #[trigger] ts[k].span) by {
                assert(token_at(s, ts[k], bounds[k]));
                lemma_span_position(s, bounds[k].0, bounds[k].1);
                lemma_utf8_len_prefix(s, bounds[k].0, bounds[k].1);
                assert(position_at(s, bounds[k].0, ts[k].span));
            }
        },
        Err(e) => {
            let a = error_witness(s, 0);
            lemma_span_position(s, a, a);
            lemma_utf8_len_prefix(s, a, a);
            assert(position_at(s, a, e.span));
        },
    }
}

proof fn lemma_run_end_prefix(s: Seq<char>, a: int, q: int, k: CharClass)
    requires
        0 <= q <= a <= s.len(),
        run_end(s, q, k) <= a,
    ensures
        run_end(s.take(a), q, k) == run_end(s, q, k),
    decreases a - q,
{
    lemma_run_end(s, q, k);
    if q < s.len() && in_class(s[q], k) {
        lemma_run_end(s, q + 1, k);
        assert(s.take(a)[q] == s[q]);
        lemma_run_end_prefix(s, a, q + 1, k);
    } else if q < a {
        assert(s.take(a)[q] == s[q]);
    }
}

proof fn lemma_block_comment_end_prefix(s: Seq<char>, a: int, q: int)
    requires
        0 <= q,
        0 <= a <= s.len(),
    ensures
        block_comment_end(s, q) matches Some(e) ==> (e <= a ==> block_comment_end(s.take(a), q)
            == Some(e)),
        block_comment_end(s, q) is None ==> block_comment_end(s.take(a), q) is None,
    decreases s.len() - q,
{
    if q + 1 < s.len() {
        if q + 1 < a {
            assert(s.take(a)[q] == s[q]);
            assert(s.take(a)[q + 1] == s[q + 1]);
        }
        if !(s[q] == '*' && s[q + 1] == '/') {
            lemma_block_comment_end_prefix(s, a, q + 1);
        }
    }
}

proof fn lemma_string_end_prefix(s: Seq<char>, a: int, q: int)
    requires
        0 <= q,
        0 <= a <= s.len(),
    ensures
        string_end(s, q) matches Some(e) ==> (e <= a ==> string_end(s.take(a), q) == Some(e)),
        string_end(s, q) is None ==> string_end(s.take(a), q) is None,
    decreases s.len() - q,
{
    if q < s.len() {
        if q < a {
            assert(s.take(a)[q] == s[q]);
        }
        if s[q] != '"' {
            if s[q] == '\\' {
                if q + 1 < s.len() {
                    lemma_string_end_prefix(s, a, q + 2);
                    lemma_string_end(s, q + 2);
                }
            } else {
                lemma_string_end_prefix(s, a, q + 1);
                lemma_string_end(s, q + 1);
            }
        }
    }
}

proof fn lemma_number_end_prefix(s: Seq<char>, a: int, p: int)
    requires
        0 <= p < s.len(),
        is_decimal_digit(s[p]),
        number_end(s, p) <= a <= s.len(),
    ensures
        number_end(s.take(a), p) == number_end(s, p),
{
    let t = s.take(a);
    let d = CharClass::DecimalDigit;
    lemma_number_end(s, p);
    lemma_run_end(s, p, d);
    let x = run_end(s, p, d);
    if x + 1 < s.len() {
        lemma_run_end(s, x + 1, d);
    }
    let y = if x + 1 < s.len() && s[x] == '.' && is_decimal_digit(s[x + 1]) {
        run_end(s, x + 1, d)
    } else {
        x
    };
    if x + 1 < a {
        assert(t[x] == s[x]);
        assert(t[x + 1] == s[x + 1]);
    }
    if y + 1 <= s.len() {
        lemma_run_end(s, y + 1, d);
    }
    if y + 2 <= s.len() {
        lemma_run_end(s, y + 2, d);
    }
    assert(x <= y <= number_end(s, p));
    lemma_run_end_prefix(s, a, p, d);
    if y != x {
        lemma_run_end_prefix(s, a, x + 1, d);
    }
    if y < a {
        assert(t[y] == s[y]);
    }
    if y + 1 < a {
        assert(t[y + 1] == s[y + 1]);
    }
    if y + 2 < a {
        assert(t[y + 2] == s[y + 2]);
    }
    if y + 1 <= s.len() {
        lemma_run_end(s, y + 1, d);
    }
    if y + 2 <= s.len() {
        lemma_run_end(s, y + 2, d);
    }
    if y + 1 <= a && run_end(s, y + 1, d) <= a {
        lemma_run_end_prefix(s, a, y + 1, d);
    }
    if y + 2 <= a && run_end(s, y + 2, d) <= a {
        lemma_run_end_prefix(s, a, y + 2, d);
    }
}

proof fn lemma_starts_with_prefix(s: Seq<char>, a: int, p: int, w: Seq<char>)
    requires
        0 <= p,
        0 <= a <= s.len(),
    ensures
        starts_with(s.take(a), p, w) ==> starts_with(s, p, w),
        p + w.len() <= a ==> (starts_with(s.take(a), p, w) <==> starts_with(s, p, w)),
{
    if p + w.len() <= a {
        assert(s.take(a).subrange(p, p + w.len()) =~= s.subrange(p, p + w.len()));
    }
}

proof fn lemma_first_fit_prefix(ks: Seq<TokenKind>, s: Seq<char>, a: int, p: int)
    requires
        0 <= p,
        0 <= a <= s.len(),
    ensures
        first_fit(ks, s, p) matches Some(k) ==> (p + k.spec_text().len() <= a ==> first_fit(
            ks,
            s.take(a),
            p,
        ) == Some(k)),
        first_fit(ks, s, p) is None ==> first_fit(ks, s.take(a), p) is None,
    decreases ks.len(),
{
    if ks.len() > 0 {
        lemma_starts_with_prefix(s, a, p, ks[0].spec_text());
        lemma_first_fit_prefix(ks.drop_first(), s, a, p);
    }
}

/// What the grammar matches at a position does not depend on the input
/// after the match: cutting the input anywhere past the match leaves it.
pub proof fn lemma_scan_prefix(s: Seq<char>, a: int, p: int)
    requires
        0 <= p,
        0 <= a <= s.len(),
        scan(s, p) matches Some((cls, e)) && e <= a,
    ensures
        scan(s.take(a), p) == scan(s, p),
{
    let t = s.take(a);
    lemma_scan_advances(s, p);
    assert(t[p] == s[p]);
    let slash_slash = seq!['/', '/'];
    let slash_star = seq!['/', '*'];
    lemma_starts_with_prefix(s, a, p, slash_slash);
    lemma_starts_with_prefix(s, a, p, slash_star);
    lemma_run_end(s, p, CharClass::WhiteSpace);
    lemma_run_end_prefix(s, a, p, CharClass::WhiteSpace);
    if starts_with(s, p, slash_slash) {
        lemma_run_end(s, p + 2, CharClass::NotLineBreak);
        lemma_run_end_prefix(s, a, p + 2, CharClass::NotLineBreak);
    }
    lemma_block_comment_end_prefix(s, a, p + 2);
    lemma_string_end_prefix(s, a, p + 1);
    if is_decimal_digit(s[p]) {
        lemma_number_end(s, p);
        lemma_number_end_prefix(s, a, p);
    }
    if is_ident_start(s[p]) && p + 1 <= a {
        lemma_run_end(s, p + 1, CharClass::IdentContinue);
        lemma_run_end_prefix(s, a, p + 1, CharClass::IdentContinue);
    }
    lemma_first_fit_prefix(symbols(), s, a, p);
}

proof fn error_witness(s: Seq<char>, i: int) -> (a: int)
    requires
        0 <= i <= s.len(),
        lex_from(s, i) is Err,
    ensures
        i <= a < s.len(),
        scan(s, a) is None,
        lex_from(s, i) == Err::<Seq<SpecToken>, SpecLexError>(
            SpecLexError { message: "unrecognized token"@, span: span_at(s, a, a) },
        ),
        lex_from(s.take(a), i) is Ok,
    decreases s.len() - i,
{
    lemma_scan_advances(s, i);
    lemma_scan_has_kind(s, i);
    match scan(s, i) {
        None => {
            assert(lex_from(s.take(i), i) == Ok::<Seq<SpecToken>, SpecLexError>(seq![]));
            i
        },
        Some((cls, j)) => {
            let a = error_witness(s, j);
            lemma_scan_prefix(s, a, i);
            assert(s.take(a).subrange(i, j) =~= s.subrange(i, j));
            a
        },
    }
}

/// When lexing fails, it fails with "unrecognized token" at a character
/// where no token class matches; the error's span is empty and lies there,
/// and everything before that character lexes without error.
pub proof fn lemma_lex_error(s: Seq<char>)
    requires
        spec_lex(s) is Err,
    ensures
        exists|a: int|
            0 <= a < s.len() && scan(s, a) is None && spec_lex(s)->Err_0 == (SpecLexError {
                message: "unrecognized token"@,
                span: span_at(s, a, a),
            }) && spec_lex(#[trigger] s.take(a)) is Ok,
{
    let a = error_witness(s, 0);
    assert(spec_lex(s.take(a)) is Ok);
}

/// The rank of a token class in the order in which the grammar tries them.
pub open spec fn class_rank(cls: TokenClass) -> int {
    match cls {
        TokenClass::WhiteSpace => 0,
        TokenClass::Comment => 1,
        TokenClass::String => 2,
        TokenClass::Number => 3,
        TokenClass::Identifier => 4,
        TokenClass::Symbol => 5,
    }
}

/// Where the match of class `cls` alone at `i` ends, if that class matches
/// there.
pub open spec fn class_match(cls: TokenClass, s: Seq<char>, i: int) -> Option<int> {
    if !(0 <= i < s.len()) {
        None
    } else {
        match cls {
            TokenClass::WhiteSpace => if is_white_space(s[i]) {
                Some(run_end(s, i, CharClass::WhiteSpace))
            } else {
                None
            },
            TokenClass::Comment => if starts_with(s, i, seq!['/', '/']) {
                Some(run_end(s, i + 2, CharClass::NotLineBreak))
            } else if starts_with(s, i, seq!['/', '*']) {
                block_comment_end(s, i + 2)
            } else {
                None
            },
            TokenClass::String => if s[i] == '"' {
                string_end(s, i + 1)
            } else {
                None
            },
            TokenClass::Number => if is_decimal_digit(s[i]) {
                Some(number_end(s, i))
            } else {
                None
            },
            TokenClass::Identifier => if is_ident_start(s[i]) {
                Some(run_end(s, i + 1, CharClass::IdentContinue))
            } else {
                None
            },
            TokenClass::Symbol => match symbol_at(s, i) {
                Some(k) => Some(i + k.spec_text().len()),
                None => None,
            },
        }
    }
}

/// The grammar takes, at each position, the first class in the order
/// whitespace, comment, string, number, identifier, symbol that matches a
/// nonempty text there, and fails exactly when none does.
pub proof fn lemma_scan_first_class(s: Seq<char>, i: int)
    ensures
        scan(s, i) matches Some((cls, j)) ==> class_match(cls, s, i) == Some(j) && i < j && forall|
            other: TokenClass,
        | class_rank(other) < class_rank(cls) ==> #[trigger] class_match(other, s, i) is None,
        scan(s, i) is None ==> forall|other: TokenClass| #[trigger] class_match(other, s, i) is None,
{
    lemma_scan_advances(s, i);
}

/// `c` is an ASCII letter or an underscore.
pub open spec fn ascii_letter(c: char) -> bool {
    ('A' <= c && c <= 'Z') || ('a' <= c && c <= 'z') || c == '_'
}

/// `c` is an ASCII decimal digit.
pub open spec fn ascii_digit(c: char) -> bool {
    '0' <= c && c <= '9'
}

/// `w` is a word: an ASCII letter or underscore, then ASCII letters, digits
/// and underscores.
pub open spec fn ascii_word(w: Seq<char>) -> bool {
    &&& w.len() > 0
    &&& ascii_letter(w[0])
    &&& forall|p: int| 1 <= p < w.len() ==> ascii_letter(#[trigger] w[p]) || ascii_digit(w[p])
}

proof fn lemma_run_end_exact(s: Seq<char>, i: int, j: int, k: CharClass)
    requires
        0 <= i <= j <= s.len(),
        forall|p: int| i <= p < j ==> in_class(#[trigger] s[p], k),
        j == s.len() || !in_class(s[j], k),
    ensures
        run_end(s, i, k) == j,
    decreases j - i,
{
    if i < j {
        lemma_run_end_exact(s, i + 1, j, k);
    }
}

/// A word followed by anything but a letter, digit or underscore is matched
/// whole, as an identifier (or keyword).
pub proof fn lemma_scan_word(s: Seq<char>, i: int, j: int)
    requires
        0 <= i < j <= s.len(),
        ascii_word(s.subrange(i, j)),
        j == s.len() || !(ascii_letter(s[j]) || ascii_digit(s[j])),
    ensures
        scan(s, i) == Some((TokenClass::Identifier, j)),
{
    let w = s.subrange(i, j);
    assert(s[i] == w[0]);
    assert forall|p: int| i + 1 <= p < j implies in_class(#[trigger] s[p], CharClass::IdentContinue) by {
        assert(s[p] == w[p - i]);
    }
    lemma_run_end_exact(s, i + 1, j, CharClass::IdentContinue);
}

/// A run of ASCII digits followed by an ASCII character that is not a digit,
/// a dot or an exponent mark is matched whole, as a number.
pub proof fn lemma_scan_digits(s: Seq<char>, i: int, j: int)
    requires
        0 <= i < j <= s.len(),
        forall|p: int| i <= p < j ==> ascii_digit(#[trigger] s[p]),
        j == s.len() || (s[j] < '\u{80}' && !ascii_digit(s[j]) && s[j] != '.' && s[j] != 'e'
            && s[j] != 'E'),
    ensures
        scan(s, i) == Some((TokenClass::Number, j)),
{
    assert forall|p: int| i <= p < j implies in_class(#[trigger] s[p], CharClass::DecimalDigit) by {
        assert(ascii_digit(s[p]));
    }
    if j < s.len() {
        lemma_char_code(s[j]);
        assert(!is_decimal_digit(s[j]));
    }
    lemma_run_end_exact(s, i, j, CharClass::DecimalDigit);
}

/// `//` and the rest of the line, up to a line break or the end of the
/// input, is matched as one comment.
pub proof fn lemma_scan_line_comment(s: Seq<char>, i: int, j: int)
    requires
        0 <= i,
        i + 2 <= j <= s.len(),
        s[i] == '/' && s[i + 1] == '/',
        forall|p: int| i + 2 <= p < j ==> #[trigger] s[p] != '\r' && s[p] != '\n',
        j == s.len() || s[j] == '\r' || s[j] == '\n',
    ensures
        scan(s, i) == Some((TokenClass::Comment, j)),
{
    assert(s.subrange(i, i + 2) =~= seq!['/', '/']);
    lemma_run_end_exact(s, i + 2, j, CharClass::NotLineBreak);
}

proof fn lemma_block_comment_end_exact(s: Seq<char>, q: int, j: int)
    requires
        0 <= q <= j - 2,
        j <= s.len(),
        s[j - 2] == '*' && s[j - 1] == '/',
        forall|p: int| q <= p < j - 2 ==> !(#[trigger] s[p] == '*' && s[p + 1] == '/'),
    ensures
        block_comment_end(s, q) == Some(j),
    decreases j - q,
{
    if q < j - 2 {
        lemma_block_comment_end_exact(s, q + 1, j);
    }
}

/// `/*` up to the first `*/` after it is matched as one comment.
pub proof fn lemma_scan_block_comment(s: Seq<char>, i: int, j: int)
    requires
        0 <= i,
        i + 4 <= j <= s.len(),
        s[i] == '/' && s[i + 1] == '*',
        s[j - 2] == '*' && s[j - 1] == '/',
        forall|p: int| i + 2 <= p < j - 2 ==> !(#[trigger] s[p] == '*' && s[p + 1] == '/'),
    ensures
        scan(s, i) == Some((TokenClass::Comment, j)),
{
    assert(s.subrange(i, i + 2) =~= seq!['/', '*']);
    assert(s.subrange(i, i + 2)[1] == '*');
    lemma_block_comment_end_exact(s, i + 2, j);
}

proof fn lemma_string_end_plain(s: Seq<char>, q: int, j: int)
    requires
        0 <= q < j <= s.len(),
        s[j - 1] == '"',
        forall|p: int| q <= p < j - 1 ==> #[trigger] s[p] != '"' && s[p] != '\\',
    ensures
        string_end(s, q) == Some(j),
    decreases j - q,
{
    if q < j - 1 {
        lemma_string_end_plain(s, q + 1, j);
    }
}

/// A quote, characters that are neither quotes nor backslashes, and a quote
/// are matched as one string.
pub proof fn lemma_scan_plain_string(s: Seq<char>, i: int, j: int)
    requires
        0 <= i,
        i + 2 <= j <= s.len(),
        s[i] == '"' && s[j - 1] == '"',
        forall|p: int| i + 1 <= p < j - 1 ==> #[trigger] s[p] != '"' && s[p] != '\\',
    ensures
        scan(s, i) == Some((TokenClass::String, j)),
{
    lemma_string_end_plain(s, i + 1, j);
}

/// `c` is an ASCII space, tab, line feed, vertical tab, form feed or
/// carriage return.
pub open spec fn ascii_space(c: char) -> bool {
    c == ' ' || c == '\t' || c == '\n' || c == '\r' || c == '\x0B' || c == '\x0C'
}

/// A run of ASCII spaces followed by any other ASCII character is matched
/// whole, as whitespace.
pub proof fn lemma_scan_ascii_spaces(s: Seq<char>, i: int, j: int)
    requires
        0 <= i < j <= s.len(),
        forall|p: int| i <= p < j ==> ascii_space(#[trigger] s[p]),
        j == s.len() || (s[j] < '\u{80}' && !ascii_space(s[j])),
    ensures
        scan(s, i) == Some((TokenClass::WhiteSpace, j)),
{
    assert forall|p: int| i <= p < j implies in_class(#[trigger] s[p], CharClass::WhiteSpace) by {
        assert(ascii_space(s[p]));
    }
    if j < s.len() {
        lemma_char_code(s[j]);
        assert(!is_white_space(s[j]));
    }
    lemma_run_end_exact(s, i, j, CharClass::WhiteSpace);
}

/// A word alone lexes to one token that covers it, at line 1, column 1: the
/// keyword spelled that way when the word is reserved, else an identifier.
pub proof fn lemma_lex_word(w: Seq<char>)
    requires
        ascii_word(w),
        w.len() <= usize::MAX,
    ensures
        spec_lex(w) matches Ok(ts) && ts.len() == 1 && ts[0].lexeme == w && ts[0].span == (Span {
            start: 0,
            end: w.len() as usize,
            line: 1,
            column: 1,
        }) && (reserved_words().contains(w) ==> ts[0].kind.spec_text() == w) && (
        !reserved_words().contains(w) ==> ts[0].kind == TokenKind::Identifier),
{
    lemma_scan_word(w, 0, w.len() as int);
    lemma_keyword_of(w);
    assert(w.subrange(0, w.len() as int) =~= w);
    assert(w.take(w.len() as int) =~= w);
    assert(w.take(0) =~= Seq::<char>::empty());
    assert forall|p: int| 0 <= p < w.len() implies (#[trigger] w[p] as u32) < 0x80 by {
        if p > 0 {
            assert(ascii_letter(w[p]) || ascii_digit(w[p]));
        }
    }
    lemma_utf8_len_ascii(w);
    assert(lex_from(w, w.len() as int) == Ok::<Seq<SpecToken>, SpecLexError>(seq![]));
    assert(seq![lex_from(w, 0)->Ok_0[0]] + Seq::<SpecToken>::empty() =~= seq![
        lex_from(w, 0)->Ok_0[0],
    ]);
}

/// A decimal literal in ASCII: digits, then optionally `.` and digits
/// (ending at `b`), then optionally an exponent mark, an optional sign and
/// digits (ending at `j`), followed by an ASCII character that is not a
/// digit, a dot or an exponent mark, is matched whole, as a number.
pub proof fn lemma_scan_decimal(s: Seq<char>, i: int, a: int, b: int, k: int, j: int)
    requires
        0 <= i < a <= b <= j <= s.len(),
        forall|p: int| i <= p < a ==> ascii_digit(#[trigger] s[p]),
        b == a || (s[a] == '.' && a + 1 < b && forall|p: int|
            a + 1 <= p < b ==> ascii_digit(#[trigger] s[p])),
        j == b || ((s[b] == 'e' || s[b] == 'E') && (k == b + 1 || (k == b + 2 && (s[b + 1] == '+'
            || s[b + 1] == '-'))) && k < j && forall|p: int|
            k <= p < j ==> ascii_digit(#[trigger] s[p])),
        j == s.len() || (s[j] < '\u{80}' && !ascii_digit(s[j]) && s[j] != '.' && s[j] != 'e'
            && s[j] != 'E'),
    ensures
        scan(s, i) == Some((TokenClass::Number, j)),
{
    let d = CharClass::DecimalDigit;
    assert forall|p: int| i <= p < a implies in_class(#[trigger] s[p], d) by {
        assert(ascii_digit(s[p]));
    }
    if a < s.len() {
        lemma_char_code(s[a]);
    }
    lemma_run_end_exact(s, i, a, d);
    if b != a {
        assert forall|p: int| a + 1 <= p < b implies in_class(#[trigger] s[p], d) by {
            assert(ascii_digit(s[p]));
        }
        if b < s.len() {
            lemma_char_code(s[b]);
        }
        assert(ascii_digit(s[a + 1]));
        lemma_run_end_exact(s, a + 1, b, d);
    }
    if j != b {
        assert forall|p: int| k <= p < j implies in_class(#[trigger] s[p], d) by {
            assert(ascii_digit(s[p]));
        }
        assert(ascii_digit(s[k]));
        if j < s.len() {
            lemma_char_code(s[j]);
        }
        lemma_run_end_exact(s, k, j, d);
    } else if j < s.len() {
        lemma_char_code(s[j]);
    }
}

/// Every reserved symbol starts with an ASCII character that is not a
/// letter, digit, underscore or space.
proof fn lemma_symbol_first_chars(n: int)
    requires
        0 <= n < symbols().len(),
    ensures
        symbols()[n].spec_text()[0] < '\u{80}',
        !ascii_letter(symbols()[n].spec_text()[0]),
        !ascii_digit(symbols()[n].spec_text()[0]),
        !ascii_space(symbols()[n].spec_text()[0]),
{
}

/// A reserved symbol alone is matched whole, as a symbol.
#[verifier::rlimit(60)]
proof fn lemma_scan_symbol_alone(w: Seq<char>, n: int)
    requires
        0 <= n < symbols().len(),
        symbols()[n].spec_text() == w,
    ensures
        scan(w, 0) == Some((TokenClass::Symbol, w.len() as int)),
{
    let k = symbols()[n];
    assert(symbols().contains(k));
    lemma_symbols_nonempty(k);
    lemma_symbol_spellings(n);
    lemma_symbol_first_chars(n);
    lemma_char_code(w[0]);
    assert(!is_white_space(w[0]));
    assert(!is_decimal_digit(w[0]));
    assert(!is_ident_start(w[0]));
    assert(w.subrange(0, w.len() as int) =~= w);
    assert(starts_with(w, 0, k.spec_text()));
    lemma_symbol_at_longest(w, 0, k);
    lemma_first_fit(symbols(), w, 0);
    if w.len() >= 2 {
        assert(w.subrange(0, 2)[0] == w[0]);
    }
}

/// A reserved symbol alone lexes to one token that covers it, at line 1,
/// column 1, of a kind spelled that way.
pub proof fn lemma_lex_symbol(w: Seq<char>)
    requires
        reserved_symbol_spellings().contains(w),
    ensures
        spec_lex(w) matches Ok(ts) && ts.len() == 1 && ts[0].lexeme == w && ts[0].kind.spec_text()
            == w && ts[0].span.start == 0 && ts[0].span.line == 1 && ts[0].span.column == 1,
{
    lemma_symbol_table();
    let n = choose|n: int|
        0 <= n < reserved_symbol_spellings().len() && reserved_symbol_spellings()[n] == w;
    assert(symbols().map_values(|k: TokenKind| k.spec_text())[n] == symbols()[n].spec_text());
    lemma_scan_symbol_alone(w, n);
    lemma_symbol_of(w);
    assert(w.subrange(0, w.len() as int) =~= w);
    assert(w.take(0) =~= Seq::<char>::empty());
    assert(lex_from(w, w.len() as int) == Ok::<Seq<SpecToken>, SpecLexError>(seq![]));
    assert(seq![lex_from(w, 0)->Ok_0[0]] + Seq::<SpecToken>::empty() =~= seq![
        lex_from(w, 0)->Ok_0[0],
    ]);
}

/// Input made of whitespace only lexes to no tokens.
pub proof fn lemma_lex_white_space_only(s: Seq<char>)
    requires
        all_white_space(s, 0, s.len() as int),
    ensures
        spec_lex(s) == Ok::<Seq<SpecToken>, SpecLexError>(seq![]),
{
    if s.len() > 0 {
        lemma_run_end(s, 0, CharClass::WhiteSpace);
        let j = run_end(s, 0, CharClass::WhiteSpace);
        if j < s.len() {
            assert(is_white_space(s[j]));
        }
        assert(lex_from(s, s.len() as int) == Ok::<Seq<SpecToken>, SpecLexError>(seq![]));
    }
}

/// Whether the spellings of `ks` are ordered longest first.
pub open spec fn longest_first(ks: Seq<TokenKind>) -> bool {
    forall|n: int, m: int|
        0 <= n < m < ks.len() ==> #[trigger] ks[n].spec_text().len() >= #[trigger] ks[m].spec_text().len()
}

/// The table of symbols holds 4 spellings of three characters, then 14 of
/// two, then 26 of one.
proof fn lemma_symbol_lengths(n: int)
    requires
        0 <= n < symbols().len(),
    ensures
        symbols().len() == 44,
        n < 4 ==> symbols()[n].spec_text().len() == 3,
        4 <= n < 18 ==> symbols()[n].spec_text().len() == 2,
        18 <= n ==> symbols()[n].spec_text().len() == 1,
{
}

proof fn lemma_symbols_longest_first()
    ensures
        longest_first(symbols()),
{
    let ks = symbols();
    assert forall|n: int, m: int| 0 <= n < m < ks.len() implies #[trigger] ks[n].spec_text().len()
        >= #[trigger] ks[m].spec_text().len() by {
        lemma_symbol_lengths(n);
        lemma_symbol_lengths(m);
    }
}

proof fn lemma_first_fit_longest(ks: Seq<TokenKind>, s: Seq<char>, i: int, other: TokenKind)
    requires
        longest_first(ks),
        ks.contains(other),
        starts_with(s, i, other.spec_text()),
    ensures
        first_fit(ks, s, i) matches Some(k) && k.spec_text().len() >= other.spec_text().len(),
    decreases ks.len(),
{
    let m = choose|m: int| 0 <= m < ks.len() && ks[m] == other;
    if !starts_with(s, i, ks[0].spec_text()) {
        assert(m != 0);
        assert(ks.drop_first()[m - 1] == other);
        assert forall|a: int, b: int| 0 <= a < b < ks.drop_first().len() implies #[trigger] ks.drop_first()[a].spec_text().len()
            >= #[trigger] ks.drop_first()[b].spec_text().len() by {
            assert(ks[a + 1].spec_text().len() >= ks[b + 1].spec_text().len());
        }
        lemma_first_fit_longest(ks.drop_first(), s, i, other);
    } else if m > 0 {
        assert(ks[0].spec_text().len() >= ks[m].spec_text().len());
    }
}

/// The symbol matched at a position is the longest reserved symbol that
/// occurs there.
pub proof fn lemma_symbol_at_longest(s: Seq<char>, i: int, other: TokenKind)
    requires
        symbols().contains(other),
        starts_with(s, i, other.spec_text()),
    ensures
        symbol_at(s, i) matches Some(k) && k.spec_text().len() >= other.spec_text().len(),
{
    lemma_symbols_longest_first();
    lemma_first_fit_longest(symbols(), s, i, other);
}

} // verus!
