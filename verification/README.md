# sysml

Lexer and syntax-tree types for the SysML v2 / KerML textual notation,
verified with Verus.

- `src/lexer.rs`: the token grammar as spec functions (`scan`, `lex_from`,
  `spec_lex`), the verified lexer `lex`, and its laws: `lemma_lex_layout`,
  `lemma_lex_spans`, `lemma_lex_token_kinds`, `lemma_lex_positions`,
  `lemma_lex_error`, `lemma_scan_first_class`, `lemma_scan_has_kind`,
  `lemma_symbol_at_longest`, `lemma_lex_white_space_only`.
- `src/token.rs`: spans, token kinds, the keyword and symbol tables.
- `src/position.rs`: line/column bookkeeping (`advance_position`) and its laws
  (`lemma_advance_concat`, `lemma_advance_closed_form`, `lemma_fits_concat`, ...).
- `src/unicode.rs`: the character classes of the grammar and UTF-8 widths.
- `src/text.rs`: conversions between strings and character vectors.
- `src/ast.rs`: syntax-tree types that hold no expression.
- `app/lib.rs`: syntax-tree nodes that hold expressions (and so a
  floating-point literal), outside the verified library.
- `tests/regex_oracle.rs`: compares the lexer with a lexer driven by the
  `regex` crate over the same token pattern.
