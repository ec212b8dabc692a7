//! Token kinds, their spellings, and the keyword and symbol tables of the
//! SysML v2 / KerML textual notation.

use vstd::prelude::*;

use crate::text::{chars_of, chars_match, string_from_chars};

verus! {

/// A region of the source text.
///
/// `start` and `end` are byte offsets into the UTF-8 source (`end` is
/// exclusive); `line` and `column` are the 1-based position of the first
/// character, counted in characters.
#[derive(Debug, Clone, Copy, PartialEq, Eq, Structural)]
pub struct Span {
    pub start: usize,
    pub end: usize,
    pub line: usize,
    pub column: usize,
}

/// The kind of a lexical token.
///
/// Besides the four open classes (identifiers, numbers, strings, comments)
/// there is one kind per reserved keyword and one per reserved symbol.
#[derive(Debug, Clone, Copy, PartialEq, Eq, Structural)]
pub enum TokenKind {
    Identifier,
    Number,
    String,
    Comment,
    /// `about`
    About,
    /// `abstract`
    Abstract,
    /// `accept`
    Accept,
    /// `action`
    Action,
    /// `actor`
    Actor,
    /// `after`
    After,
    /// `alias`
    Alias,
    /// `all`
    All,
    /// `allocate`
    Allocate,
    /// `allocation`
    Allocation,
    /// `analysis`
    Analysis,
    /// `and`
    And,
    /// `as`
    As,
    /// `assert`
    Assert,
    /// `assign`
    Assign,
    /// `assoc`
    Assoc,
    /// `assume`
    Assume,
    /// `at`
    At,
    /// `attribute`
    Attribute,
    /// `behavior`
    Behavior,
    /// `bind`
    Bind,
    /// `binding`
    Binding,
    /// `bool`
    Bool,
    /// `by`
    By,
    /// `calc`
    Calc,
    /// `case`
    Case,
    /// `class`
    Class,
    /// `classifier`
    Classifier,
    /// `comment`
    CommentKeyword,
    /// `concern`
    Concern,
    /// `conjugates`
    Conjugates,
    /// `connect`
    Connect,
    /// `connection`
    Connection,
    /// `connector`
    Connector,
    /// `constant`
    Constant,
    /// `constraint`
    Constraint,
    /// `crosses`
    Crosses,
    /// `datatype`
    Datatype,
    /// `decide`
    Decide,
    /// `def`
    Def,
    /// `default`
    Default,
    /// `defined`
    Defined,
    /// `dependency`
    Dependency,
    /// `derived`
    Derived,
    /// `do`
    Do,
    /// `doc`
    Doc,
    /// `else`
    Else,
    /// `end`
    End,
    /// `entry`
    Entry,
    /// `enum`
    Enum,
    /// `event`
    Event,
    /// `exhibit`
    Exhibit,
    /// `exit`
    Exit,
    /// `expose`
    Expose,
    /// `expr`
    Expr,
    /// `false`
    False,
    /// `feature`
    Feature,
    /// `filter`
    Filter,
    /// `first`
    First,
    /// `flow`
    Flow,
    /// `for`
    For,
    /// `fork`
    Fork,
    /// `frame`
    Frame,
    /// `from`
    From,
    /// `function`
    Function,
    /// `hastype`
    Hastype,
    /// `if`
    If,
    /// `implies`
    Implies,
    /// `import`
    Import,
    /// `in`
    In,
    /// `include`
    Include,
    /// `individual`
    Individual,
    /// `inout`
    Inout,
    /// `instanceof`
    Instanceof,
    /// `interaction`
    Interaction,
    /// `interface`
    Interface,
    /// `inv`
    Inv,
    /// `istype`
    Istype,
    /// `item`
    Item,
    /// `join`
    Join,
    /// `language`
    Language,
    /// `library`
    Library,
    /// `locale`
    Locale,
    /// `loop`
    Loop,
    /// `merge`
    Merge,
    /// `message`
    Message,
    /// `meta`
    Meta,
    /// `metaclass`
    Metaclass,
    /// `metadata`
    Metadata,
    /// `namespace`
    Namespace,
    /// `new`
    New,
    /// `nonunique`
    Nonunique,
    /// `not`
    Not,
    /// `null`
    Null,
    /// `objective`
    Objective,
    /// `occurrence`
    Occurrence,
    /// `of`
    Of,
    /// `or`
    Or,
    /// `ordered`
    Ordered,
    /// `out`
    Out,
    /// `package`
    Package,
    /// `parallel`
    Parallel,
    /// `part`
    Part,
    /// `perform`
    Perform,
    /// `port`
    Port,
    /// `portion`
    Portion,
    /// `predicate`
    Predicate,
    /// `private`
    Private,
    /// `protected`
    Protected,
    /// `public`
    Public,
    /// `readonly`
    Readonly,
    /// `redefines`
    Redefines,
    /// `ref`
    Ref,
    /// `references`
    References,
    /// `render`
    Render,
    /// `rendering`
    Rendering,
    /// `rep`
    Rep,
    /// `require`
    Require,
    /// `requirement`
    Requirement,
    /// `return`
    Return,
    /// `satisfy`
    Satisfy,
    /// `send`
    Send,
    /// `snapshot`
    Snapshot,
    /// `specializes`
    Specializes,
    /// `stakeholder`
    Stakeholder,
    /// `standard`
    Standard,
    /// `state`
    State,
    /// `step`
    Step,
    /// `struct`
    Struct,
    /// `subject`
    Subject,
    /// `subsets`
    Subsets,
    /// `succession`
    Succession,
    /// `terminate`
    Terminate,
    /// `then`
    Then,
    /// `timeslice`
    Timeslice,
    /// `to`
    To,
    /// `transition`
    Transition,
    /// `true`
    True,
    /// `type`
    Type,
    /// `typed`
    Typed,
    /// `until`
    Until,
    /// `use`
    Use,
    /// `variant`
    Variant,
    /// `variation`
    Variation,
    /// `verification`
    Verification,
    /// `verify`
    Verify,
    /// `via`
    Via,
    /// `view`
    View,
    /// `viewpoint`
    Viewpoint,
    /// `when`
    When,
    /// `while`
    While,
    /// `xor`
    Xor,
    /// `::>`
    ColonColonGt,
    /// `:>>`
    ColonGtGt,
    /// `===`
    EqEqEq,
    /// `!==`
    BangEqEq,
    /// `::`
    ColonColon,
    /// `:>`
    ColonGt,
    /// `:=`
    ColonEq,
    /// `=>`
    FatArrow,
    /// `->`
    Arrow,
    /// `..`
    DotDot,
    /// `.?`
    DotQuestion,
    /// `**`
    StarStar,
    /// `<=`
    LtEq,
    /// `>=`
    GtEq,
    /// `==`
    EqEq,
    /// `!=`
    BangEq,
    /// `??`
    QuestionQuestion,
    /// `@@`
    DoubleAtSign,
    /// `{`
    LBrace,
    /// `}`
    RBrace,
    /// `(`
    LParen,
    /// `)`
    RParen,
    /// `[`
    LBracket,
    /// `]`
    RBracket,
    /// `;`
    SemiColon,
    /// `,`
    Comma,
    /// `:`
    Colon,
    /// `.`
    Dot,
    /// `=`
    Eq,
    /// `~`
    Tilde,
    /// `*`
    Star,
    /// `+`
    Plus,
    /// `-`
    Minus,
    /// `/`
    Slash,
    /// `%`
    Percent,
    /// `^`
    Caret,
    /// `<`
    Lt,
    /// `>`
    Gt,
    /// `!`
    Bang,
    /// `&`
    Amp,
    /// `|`
    Pipe,
    /// `?`
    Question,
    /// `@`
    AtSign,
    /// `#`
    Hash,
}

/// A token: its kind, the exact source text it covers, and where it stands.
#[derive(Debug, Clone, PartialEq, Eq)]
pub struct Token {
    pub kind: TokenKind,
    pub lexeme: String,
    pub span: Span,
}

/// The mathematical value of a [`Token`]: its lexeme as a sequence of characters.
pub ghost struct SpecToken {
    pub kind: TokenKind,
    pub lexeme: Seq<char>,
    pub span: Span,
}

impl View for Token {
    type V = SpecToken;

    open spec fn view(&self) -> SpecToken {
        SpecToken { kind: self.kind, lexeme: self.lexeme@, span: self.span }
    }
}

/// The reserved keywords, in table order, in blocks of at most 26.
pub open spec fn keyword_block(j: int) -> Seq<TokenKind> {
    if j == 0 {
        seq![
            TokenKind::About,
            TokenKind::Abstract,
            TokenKind::Accept,
            TokenKind::Action,
            TokenKind::Actor,
            TokenKind::After,
            TokenKind::Alias,
            TokenKind::All,
            TokenKind::Allocate,
            TokenKind::Allocation,
            TokenKind::Analysis,
            TokenKind::And,
            TokenKind::As,
            TokenKind::Assert,
            TokenKind::Assign,
            TokenKind::Assoc,
            TokenKind::Assume,
            TokenKind::At,
            TokenKind::Attribute,
            TokenKind::Behavior,
            TokenKind::Bind,
            TokenKind::Binding,
            TokenKind::Bool,
            TokenKind::By,
            TokenKind::Calc,
            TokenKind::Case,
        ]
    } else if j == 1 {
        seq![
            TokenKind::Class,
            TokenKind::Classifier,
            TokenKind::CommentKeyword,
            TokenKind::Concern,
            TokenKind::Conjugates,
            TokenKind::Connect,
            TokenKind::Connection,
            TokenKind::Connector,
            TokenKind::Constant,
            TokenKind::Constraint,
            TokenKind::Crosses,
            TokenKind::Datatype,
            TokenKind::Decide,
            TokenKind::Def,
            TokenKind::Default,
            TokenKind::Defined,
            TokenKind::Dependency,
            TokenKind::Derived,
            TokenKind::Do,
            TokenKind::Doc,
            TokenKind::Else,
            TokenKind::End,
            TokenKind::Entry,
            TokenKind::Enum,
            TokenKind::Event,
            TokenKind::Exhibit,
        ]
    } else if j == 2 {
        seq![
            TokenKind::Exit,
            TokenKind::Expose,
            TokenKind::Expr,
            TokenKind::False,
            TokenKind::Feature,
            TokenKind::Filter,
            TokenKind::First,
            TokenKind::Flow,
            TokenKind::For,
            TokenKind::Fork,
            TokenKind::Frame,
            TokenKind::From,
            TokenKind::Function,
            TokenKind::Hastype,
            TokenKind::If,
            TokenKind::Implies,
            TokenKind::Import,
            TokenKind::In,
            TokenKind::Include,
            TokenKind::Individual,
            TokenKind::Inout,
            TokenKind::Instanceof,
            TokenKind::Interaction,
            TokenKind::Interface,
            TokenKind::Inv,
            TokenKind::Istype,
        ]
    } else if j == 3 {
        seq![
            TokenKind::Item,
            TokenKind::Join,
            TokenKind::Language,
            TokenKind::Library,
            TokenKind::Locale,
            TokenKind::Loop,
            TokenKind::Merge,
            TokenKind::Message,
            TokenKind::Meta,
            TokenKind::Metaclass,
            TokenKind::Metadata,
            TokenKind::Namespace,
            TokenKind::New,
            TokenKind::Nonunique,
            TokenKind::Not,
            TokenKind::Null,
            TokenKind::Objective,
            TokenKind::Occurrence,
            TokenKind::Of,
            TokenKind::Or,
            TokenKind::Ordered,
            TokenKind::Out,
            TokenKind::Package,
            TokenKind::Parallel,
            TokenKind::Part,
            TokenKind::Perform,
        ]
    } else if j == 4 {
        seq![
            TokenKind::Port,
            TokenKind::Portion,
            TokenKind::Predicate,
            TokenKind::Private,
            TokenKind::Protected,
            TokenKind::Public,
            TokenKind::Readonly,
            TokenKind::Redefines,
            TokenKind::Ref,
            TokenKind::References,
            TokenKind::Render,
            TokenKind::Rendering,
            TokenKind::Rep,
            TokenKind::Require,
            TokenKind::Requirement,
            TokenKind::Return,
            TokenKind::Satisfy,
            TokenKind::Send,
            TokenKind::Snapshot,
            TokenKind::Specializes,
            TokenKind::Stakeholder,
            TokenKind::Standard,
            TokenKind::State,
            TokenKind::Step,
            TokenKind::Struct,
            TokenKind::Subject,
        ]
    } else if j == 5 {
        seq![
            TokenKind::Subsets,
            TokenKind::Succession,
            TokenKind::Terminate,
            TokenKind::Then,
            TokenKind::Timeslice,
            TokenKind::To,
            TokenKind::Transition,
            TokenKind::True,
            TokenKind::Type,
            TokenKind::Typed,
            TokenKind::Until,
            TokenKind::Use,
            TokenKind::Variant,
            TokenKind::Variation,
            TokenKind::Verification,
            TokenKind::Verify,
            TokenKind::Via,
            TokenKind::View,
            TokenKind::Viewpoint,
            TokenKind::When,
            TokenKind::While,
            TokenKind::Xor,
        ]
    } else {
        seq![]
    }
}

/// The reserved keywords, in table order.
pub open spec fn keywords() -> Seq<TokenKind> {
    keyword_block(0) + keyword_block(1) + keyword_block(2) + keyword_block(3) + keyword_block(4) + keyword_block(5)
}

/// The reserved symbols, longest first; symbols of equal length keep their
/// table order. A symbol that is matched at some position is the first one
/// of this sequence that fits there, hence the longest one.
pub open spec fn symbols() -> Seq<TokenKind> {
    seq![
        TokenKind::ColonColonGt,
        TokenKind::ColonGtGt,
        TokenKind::EqEqEq,
        TokenKind::BangEqEq,
        TokenKind::ColonColon,
        TokenKind::ColonGt,
        TokenKind::ColonEq,
        TokenKind::FatArrow,
        TokenKind::Arrow,
        TokenKind::DotDot,
        TokenKind::DotQuestion,
        TokenKind::StarStar,
        TokenKind::LtEq,
        TokenKind::GtEq,
        TokenKind::EqEq,
        TokenKind::BangEq,
        TokenKind::QuestionQuestion,
        TokenKind::DoubleAtSign,
        TokenKind::LBrace,
        TokenKind::RBrace,
        TokenKind::LParen,
        TokenKind::RParen,
        TokenKind::LBracket,
        TokenKind::RBracket,
        TokenKind::SemiColon,
        TokenKind::Comma,
        TokenKind::Colon,
        TokenKind::Dot,
        TokenKind::Eq,
        TokenKind::Tilde,
        TokenKind::Star,
        TokenKind::Plus,
        TokenKind::Minus,
        TokenKind::Slash,
        TokenKind::Percent,
        TokenKind::Caret,
        TokenKind::Lt,
        TokenKind::Gt,
        TokenKind::Bang,
        TokenKind::Amp,
        TokenKind::Pipe,
        TokenKind::Question,
        TokenKind::AtSign,
        TokenKind::Hash,
    ]
}

/// The first kind of `ks` whose spelling is `word`, if any.
pub open spec fn lookup_text(ks: Seq<TokenKind>, word: Seq<char>) -> Option<TokenKind>
    decreases ks.len(),
{
    if ks.len() == 0 {
        None
    } else if ks[0].spec_text() == word {
        Some(ks[0])
    } else {
        lookup_text(ks.drop_first(), word)
    }
}

/// The keyword spelled `word`, if `word` is reserved.
pub open spec fn keyword_of(word: Seq<char>) -> Option<TokenKind> {
    lookup_text(keywords(), word)
}

/// The symbol spelled `word`, if `word` is reserved.
pub open spec fn symbol_of(word: Seq<char>) -> Option<TokenKind> {
    lookup_text(symbols(), word)
}

impl TokenKind {
    /// The spelling of a keyword or symbol kind; empty for the open classes.
    pub open spec fn spec_text(self) -> Seq<char> {
        match self {
            TokenKind::Identifier => seq![],
            TokenKind::Number => seq![],
            TokenKind::String => seq![],
            TokenKind::Comment => seq![],
            TokenKind::About => seq!['a', 'b', 'o', 'u', 't'],
            TokenKind::Abstract => seq!['a', 'b', 's', 't', 'r', 'a', 'c', 't'],
            TokenKind::Accept => seq!['a', 'c', 'c', 'e', 'p', 't'],
            TokenKind::Action => seq!['a', 'c', 't', 'i', 'o', 'n'],
            TokenKind::Actor => seq!['a', 'c', 't', 'o', 'r'],
            TokenKind::After => seq!['a', 'f', 't', 'e', 'r'],
            TokenKind::Alias => seq!['a', 'l', 'i', 'a', 's'],
            TokenKind::All => seq!['a', 'l', 'l'],
            TokenKind::Allocate => seq!['a', 'l', 'l', 'o', 'c', 'a', 't', 'e'],
            TokenKind::Allocation => seq!['a', 'l', 'l', 'o', 'c', 'a', 't', 'i', 'o', 'n'],
            TokenKind::Analysis => seq!['a', 'n', 'a', 'l', 'y', 's', 'i', 's'],
            TokenKind::And => seq!['a', 'n', 'd'],
            TokenKind::As => seq!['a', 's'],
            TokenKind::Assert => seq!['a', 's', 's', 'e', 'r', 't'],
            TokenKind::Assign => seq!['a', 's', 's', 'i', 'g', 'n'],
            TokenKind::Assoc => seq!['a', 's', 's', 'o', 'c'],
            TokenKind::Assume => seq!['a', 's', 's', 'u', 'm', 'e'],
            TokenKind::At => seq!['a', 't'],
            TokenKind::Attribute => seq!['a', 't', 't', 'r', 'i', 'b', 'u', 't', 'e'],
            TokenKind::Behavior => seq!['b', 'e', 'h', 'a', 'v', 'i', 'o', 'r'],
            TokenKind::Bind => seq!['b', 'i', 'n', 'd'],
            TokenKind::Binding => seq!['b', 'i', 'n', 'd', 'i', 'n', 'g'],
            TokenKind::Bool => seq!['b', 'o', 'o', 'l'],
            TokenKind::By => seq!['b', 'y'],
            TokenKind::Calc => seq!['c', 'a', 'l', 'c'],
            TokenKind::Case => seq!['c', 'a', 's', 'e'],
            TokenKind::Class => seq!['c', 'l', 'a', 's', 's'],
            TokenKind::Classifier => seq!['c', 'l', 'a', 's', 's', 'i', 'f', 'i', 'e', 'r'],
            TokenKind::CommentKeyword => seq!['c', 'o', 'm', 'm', 'e', 'n', 't'],
            TokenKind::Concern => seq!['c', 'o', 'n', 'c', 'e', 'r', 'n'],
            TokenKind::Conjugates => seq!['c', 'o', 'n', 'j', 'u', 'g', 'a', 't', 'e', 's'],
            TokenKind::Connect => seq!['c', 'o', 'n', 'n', 'e', 'c', 't'],
            TokenKind::Connection => seq!['c', 'o', 'n', 'n', 'e', 'c', 't', 'i', 'o', 'n'],
            TokenKind::Connector => seq!['c', 'o', 'n', 'n', 'e', 'c', 't', 'o', 'r'],
            TokenKind::Constant => seq!['c', 'o', 'n', 's', 't', 'a', 'n', 't'],
            TokenKind::Constraint => seq!['c', 'o', 'n', 's', 't', 'r', 'a', 'i', 'n', 't'],
            TokenKind::Crosses => seq!['c', 'r', 'o', 's', 's', 'e', 's'],
            TokenKind::Datatype => seq!['d', 'a', 't', 'a', 't', 'y', 'p', 'e'],
            TokenKind::Decide => seq!['d', 'e', 'c', 'i', 'd', 'e'],
            TokenKind::Def => seq!['d', 'e', 'f'],
            TokenKind::Default => seq!['d', 'e', 'f', 'a', 'u', 'l', 't'],
            TokenKind::Defined => seq!['d', 'e', 'f', 'i', 'n', 'e', 'd'],
            TokenKind::Dependency => seq!['d', 'e', 'p', 'e', 'n', 'd', 'e', 'n', 'c', 'y'],
            TokenKind::Derived => seq!['d', 'e', 'r', 'i', 'v', 'e', 'd'],
            TokenKind::Do => seq!['d', 'o'],
            TokenKind::Doc => seq!['d', 'o', 'c'],
            TokenKind::Else => seq!['e', 'l', 's', 'e'],
            TokenKind::End => seq!['e', 'n', 'd'],
            TokenKind::Entry => seq!['e', 'n', 't', 'r', 'y'],
            TokenKind::Enum => seq!['e', 'n', 'u', 'm'],
            TokenKind::Event => seq!['e', 'v', 'e', 'n', 't'],
            TokenKind::Exhibit => seq!['e', 'x', 'h', 'i', 'b', 'i', 't'],
            TokenKind::Exit => seq!['e', 'x', 'i', 't'],
            TokenKind::Expose => seq!['e', 'x', 'p', 'o', 's', 'e'],
            TokenKind::Expr => seq!['e', 'x', 'p', 'r'],
            TokenKind::False => seq!['f', 'a', 'l', 's', 'e'],
            TokenKind::Feature => seq!['f', 'e', 'a', 't', 'u', 'r', 'e'],
            TokenKind::Filter => seq!['f', 'i', 'l', 't', 'e', 'r'],
            TokenKind::First => seq!['f', 'i', 'r', 's', 't'],
            TokenKind::Flow => seq!['f', 'l', 'o', 'w'],
            TokenKind::For => seq!['f', 'o', 'r'],
            TokenKind::Fork => seq!['f', 'o', 'r', 'k'],
            TokenKind::Frame => seq!['f', 'r', 'a', 'm', 'e'],
            TokenKind::From => seq!['f', 'r', 'o', 'm'],
            TokenKind::Function => seq!['f', 'u', 'n', 'c', 't', 'i', 'o', 'n'],
            TokenKind::Hastype => seq!['h', 'a', 's', 't', 'y', 'p', 'e'],
            TokenKind::If => seq!['i', 'f'],
            TokenKind::Implies => seq!['i', 'm', 'p', 'l', 'i', 'e', 's'],
            TokenKind::Import => seq!['i', 'm', 'p', 'o', 'r', 't'],
            TokenKind::In => seq!['i', 'n'],
            TokenKind::Include => seq!['i', 'n', 'c', 'l', 'u', 'd', 'e'],
            TokenKind::Individual => seq!['i', 'n', 'd', 'i', 'v', 'i', 'd', 'u', 'a', 'l'],
            TokenKind::Inout => seq!['i', 'n', 'o', 'u', 't'],
            TokenKind::Instanceof => seq!['i', 'n', 's', 't', 'a', 'n', 'c', 'e', 'o', 'f'],
            TokenKind::Interaction => seq!['i', 'n', 't', 'e', 'r', 'a', 'c', 't', 'i', 'o', 'n'],
            TokenKind::Interface => seq!['i', 'n', 't', 'e', 'r', 'f', 'a', 'c', 'e'],
            TokenKind::Inv => seq!['i', 'n', 'v'],
            TokenKind::Istype => seq!['i', 's', 't', 'y', 'p', 'e'],
            TokenKind::Item => seq!['i', 't', 'e', 'm'],
            TokenKind::Join => seq!['j', 'o', 'i', 'n'],
            TokenKind::Language => seq!['l', 'a', 'n', 'g', 'u', 'a', 'g', 'e'],
            TokenKind::Library => seq!['l', 'i', 'b', 'r', 'a', 'r', 'y'],
            TokenKind::Locale => seq!['l', 'o', 'c', 'a', 'l', 'e'],
            TokenKind::Loop => seq!['l', 'o', 'o', 'p'],
            TokenKind::Merge => seq!['m', 'e', 'r', 'g', 'e'],
            TokenKind::Message => seq!['m', 'e', 's', 's', 'a', 'g', 'e'],
            TokenKind::Meta => seq!['m', 'e', 't', 'a'],
            TokenKind::Metaclass => seq!['m', 'e', 't', 'a', 'c', 'l', 'a', 's', 's'],
            TokenKind::Metadata => seq!['m', 'e', 't', 'a', 'd', 'a', 't', 'a'],
            TokenKind::Namespace => seq!['n', 'a', 'm', 'e', 's', 'p', 'a', 'c', 'e'],
            TokenKind::New => seq!['n', 'e', 'w'],
            TokenKind::Nonunique => seq!['n', 'o', 'n', 'u', 'n', 'i', 'q', 'u', 'e'],
            TokenKind::Not => seq!['n', 'o', 't'],
            TokenKind::Null => seq!['n', 'u', 'l', 'l'],
            TokenKind::Objective => seq!['o', 'b', 'j', 'e', 'c', 't', 'i', 'v', 'e'],
            TokenKind::Occurrence => seq!['o', 'c', 'c', 'u', 'r', 'r', 'e', 'n', 'c', 'e'],
            TokenKind::Of => seq!['o', 'f'],
            TokenKind::Or => seq!['o', 'r'],
            TokenKind::Ordered => seq!['o', 'r', 'd', 'e', 'r', 'e', 'd'],
            TokenKind::Out => seq!['o', 'u', 't'],
            TokenKind::Package => seq!['p', 'a', 'c', 'k', 'a', 'g', 'e'],
            TokenKind::Parallel => seq!['p', 'a', 'r', 'a', 'l', 'l', 'e', 'l'],
            TokenKind::Part => seq!['p', 'a', 'r', 't'],
            TokenKind::Perform => seq!['p', 'e', 'r', 'f', 'o', 'r', 'm'],
            TokenKind::Port => seq!['p', 'o', 'r', 't'],
            TokenKind::Portion => seq!['p', 'o', 'r', 't', 'i', 'o', 'n'],
            TokenKind::Predicate => seq!['p', 'r', 'e', 'd', 'i', 'c', 'a', 't', 'e'],
            TokenKind::Private => seq!['p', 'r', 'i', 'v', 'a', 't', 'e'],
            TokenKind::Protected => seq!['p', 'r', 'o', 't', 'e', 'c', 't', 'e', 'd'],
            TokenKind::Public => seq!['p', 'u', 'b', 'l', 'i', 'c'],
            TokenKind::Readonly => seq!['r', 'e', 'a', 'd', 'o', 'n', 'l', 'y'],
            TokenKind::Redefines => seq!['r', 'e', 'd', 'e', 'f', 'i', 'n', 'e', 's'],
            TokenKind::Ref => seq!['r', 'e', 'f'],
            TokenKind::References => seq!['r', 'e', 'f', 'e', 'r', 'e', 'n', 'c', 'e', 's'],
            TokenKind::Render => seq!['r', 'e', 'n', 'd', 'e', 'r'],
            TokenKind::Rendering => seq!['r', 'e', 'n', 'd', 'e', 'r', 'i', 'n', 'g'],
            TokenKind::Rep => seq!['r', 'e', 'p'],
            TokenKind::Require => seq!['r', 'e', 'q', 'u', 'i', 'r', 'e'],
            TokenKind::Requirement => seq!['r', 'e', 'q', 'u', 'i', 'r', 'e', 'm', 'e', 'n', 't'],
            TokenKind::Return => seq!['r', 'e', 't', 'u', 'r', 'n'],
            TokenKind::Satisfy => seq!['s', 'a', 't', 'i', 's', 'f', 'y'],
            TokenKind::Send => seq!['s', 'e', 'n', 'd'],
            TokenKind::Snapshot => seq!['s', 'n', 'a', 'p', 's', 'h', 'o', 't'],
            TokenKind::Specializes => seq!['s', 'p', 'e', 'c', 'i', 'a', 'l', 'i', 'z', 'e', 's'],
            TokenKind::Stakeholder => seq!['s', 't', 'a', 'k', 'e', 'h', 'o', 'l', 'd', 'e', 'r'],
            TokenKind::Standard => seq!['s', 't', 'a', 'n', 'd', 'a', 'r', 'd'],
            TokenKind::State => seq!['s', 't', 'a', 't', 'e'],
            TokenKind::Step => seq!['s', 't', 'e', 'p'],
            TokenKind::Struct => seq!['s', 't', 'r', 'u', 'c', 't'],
            TokenKind::Subject => seq!['s', 'u', 'b', 'j', 'e', 'c', 't'],
            TokenKind::Subsets => seq!['s', 'u', 'b', 's', 'e', 't', 's'],
            TokenKind::Succession => seq!['s', 'u', 'c', 'c', 'e', 's', 's', 'i', 'o', 'n'],
            TokenKind::Terminate => seq!['t', 'e', 'r', 'm', 'i', 'n', 'a', 't', 'e'],
            TokenKind::Then => seq!['t', 'h', 'e', 'n'],
            TokenKind::Timeslice => seq!['t', 'i', 'm', 'e', 's', 'l', 'i', 'c', 'e'],
            TokenKind::To => seq!['t', 'o'],
            TokenKind::Transition => seq!['t', 'r', 'a', 'n', 's', 'i', 't', 'i', 'o', 'n'],
            TokenKind::True => seq!['t', 'r', 'u', 'e'],
            TokenKind::Type => seq!['t', 'y', 'p', 'e'],
            TokenKind::Typed => seq!['t', 'y', 'p', 'e', 'd'],
            TokenKind::Until => seq!['u', 'n', 't', 'i', 'l'],
            TokenKind::Use => seq!['u', 's', 'e'],
            TokenKind::Variant => seq!['v', 'a', 'r', 'i', 'a', 'n', 't'],
            TokenKind::Variation => seq!['v', 'a', 'r', 'i', 'a', 't', 'i', 'o', 'n'],
            TokenKind::Verification => seq!['v', 'e', 'r', 'i', 'f', 'i', 'c', 'a', 't', 'i', 'o', 'n'],
            TokenKind::Verify => seq!['v', 'e', 'r', 'i', 'f', 'y'],
            TokenKind::Via => seq!['v', 'i', 'a'],
            TokenKind::View => seq!['v', 'i', 'e', 'w'],
            TokenKind::Viewpoint => seq!['v', 'i', 'e', 'w', 'p', 'o', 'i', 'n', 't'],
            TokenKind::When => seq!['w', 'h', 'e', 'n'],
            TokenKind::While => seq!['w', 'h', 'i', 'l', 'e'],
            TokenKind::Xor => seq!['x', 'o', 'r'],
            TokenKind::ColonColonGt => seq![':', ':', '>'],
            TokenKind::ColonGtGt => seq![':', '>', '>'],
            TokenKind::EqEqEq => seq!['=', '=', '='],
            TokenKind::BangEqEq => seq!['!', '=', '='],
            TokenKind::ColonColon => seq![':', ':'],
            TokenKind::ColonGt => seq![':', '>'],
            TokenKind::ColonEq => seq![':', '='],
            TokenKind::FatArrow => seq!['=', '>'],
            TokenKind::Arrow => seq!['-', '>'],
            TokenKind::DotDot => seq!['.', '.'],
            TokenKind::DotQuestion => seq!['.', '?'],
            TokenKind::StarStar => seq!['*', '*'],
            TokenKind::LtEq => seq!['<', '='],
            TokenKind::GtEq => seq!['>', '='],
            TokenKind::EqEq => seq!['=', '='],
            TokenKind::BangEq => seq!['!', '='],
            TokenKind::QuestionQuestion => seq!['?', '?'],
            TokenKind::DoubleAtSign => seq!['@', '@'],
            TokenKind::LBrace => seq!['{'],
            TokenKind::RBrace => seq!['}'],
            TokenKind::LParen => seq!['('],
            TokenKind::RParen => seq![')'],
            TokenKind::LBracket => seq!['['],
            TokenKind::RBracket => seq![']'],
            TokenKind::SemiColon => seq![';'],
            TokenKind::Comma => seq![','],
            TokenKind::Colon => seq![':'],
            TokenKind::Dot => seq!['.'],
            TokenKind::Eq => seq!['='],
            TokenKind::Tilde => seq!['~'],
            TokenKind::Star => seq!['*'],
            TokenKind::Plus => seq!['+'],
            TokenKind::Minus => seq!['-'],
            TokenKind::Slash => seq!['/'],
            TokenKind::Percent => seq!['%'],
            TokenKind::Caret => seq!['^'],
            TokenKind::Lt => seq!['<'],
            TokenKind::Gt => seq!['>'],
            TokenKind::Bang => seq!['!'],
            TokenKind::Amp => seq!['&'],
            TokenKind::Pipe => seq!['|'],
            TokenKind::Question => seq!['?'],
            TokenKind::AtSign => seq!['@'],
            TokenKind::Hash => seq!['#'],
        }
    }

    /// The spelling of a keyword or symbol kind, as characters.
    pub fn text_chars(&self) -> (r: Vec<char>)
        ensures
            r@ == self.spec_text(),
    {
        match *self {
            TokenKind::Identifier => Vec::new(),
            TokenKind::Number => Vec::new(),
            TokenKind::String => Vec::new(),
            TokenKind::Comment => Vec::new(),
            TokenKind::About => vec!['a', 'b', 'o', 'u', 't'],
            TokenKind::Abstract => vec!['a', 'b', 's', 't', 'r', 'a', 'c', 't'],
            TokenKind::Accept => vec!['a', 'c', 'c', 'e', 'p', 't'],
            TokenKind::Action => vec!['a', 'c', 't', 'i', 'o', 'n'],
            TokenKind::Actor => vec!['a', 'c', 't', 'o', 'r'],
            TokenKind::After => vec!['a', 'f', 't', 'e', 'r'],
            TokenKind::Alias => vec!['a', 'l', 'i', 'a', 's'],
            TokenKind::All => vec!['a', 'l', 'l'],
            TokenKind::Allocate => vec!['a', 'l', 'l', 'o', 'c', 'a', 't', 'e'],
            TokenKind::Allocation => vec!['a', 'l', 'l', 'o', 'c', 'a', 't', 'i', 'o', 'n'],
            TokenKind::Analysis => vec!['a', 'n', 'a', 'l', 'y', 's', 'i', 's'],
            TokenKind::And => vec!['a', 'n', 'd'],
            TokenKind::As => vec!['a', 's'],
            TokenKind::Assert => vec!['a', 's', 's', 'e', 'r', 't'],
            TokenKind::Assign => vec!['a', 's', 's', 'i', 'g', 'n'],
            TokenKind::Assoc => vec!['a', 's', 's', 'o', 'c'],
            TokenKind::Assume => vec!['a', 's', 's', 'u', 'm', 'e'],
            TokenKind::At => vec!['a', 't'],
            TokenKind::Attribute => vec!['a', 't', 't', 'r', 'i', 'b', 'u', 't', 'e'],
            TokenKind::Behavior => vec!['b', 'e', 'h', 'a', 'v', 'i', 'o', 'r'],
            TokenKind::Bind => vec!['b', 'i', 'n', 'd'],
            TokenKind::Binding => vec!['b', 'i', 'n', 'd', 'i', 'n', 'g'],
            TokenKind::Bool => vec!['b', 'o', 'o', 'l'],
            TokenKind::By => vec!['b', 'y'],
            TokenKind::Calc => vec!['c', 'a', 'l', 'c'],
            TokenKind::Case => vec!['c', 'a', 's', 'e'],
            TokenKind::Class => vec!['c', 'l', 'a', 's', 's'],
            TokenKind::Classifier => vec!['c', 'l', 'a', 's', 's', 'i', 'f', 'i', 'e', 'r'],
            TokenKind::CommentKeyword => vec!['c', 'o', 'm', 'm', 'e', 'n', 't'],
            TokenKind::Concern => vec!['c', 'o', 'n', 'c', 'e', 'r', 'n'],
            TokenKind::Conjugates => vec!['c', 'o', 'n', 'j', 'u', 'g', 'a', 't', 'e', 's'],
            TokenKind::Connect => vec!['c', 'o', 'n', 'n', 'e', 'c', 't'],
            TokenKind::Connection => vec!['c', 'o', 'n', 'n', 'e', 'c', 't', 'i', 'o', 'n'],
            TokenKind::Connector => vec!['c', 'o', 'n', 'n', 'e', 'c', 't', 'o', 'r'],
            TokenKind::Constant => vec!['c', 'o', 'n', 's', 't', 'a', 'n', 't'],
            TokenKind::Constraint => vec!['c', 'o', 'n', 's', 't', 'r', 'a', 'i', 'n', 't'],
            TokenKind::Crosses => vec!['c', 'r', 'o', 's', 's', 'e', 's'],
            TokenKind::Datatype => vec!['d', 'a', 't', 'a', 't', 'y', 'p', 'e'],
            TokenKind::Decide => vec!['d', 'e', 'c', 'i', 'd', 'e'],
            TokenKind::Def => vec!['d', 'e', 'f'],
            TokenKind::Default => vec!['d', 'e', 'f', 'a', 'u', 'l', 't'],
            TokenKind::Defined => vec!['d', 'e', 'f', 'i', 'n', 'e', 'd'],
            TokenKind::Dependency => vec!['d', 'e', 'p', 'e', 'n', 'd', 'e', 'n', 'c', 'y'],
            TokenKind::Derived => vec!['d', 'e', 'r', 'i', 'v', 'e', 'd'],
            TokenKind::Do => vec!['d', 'o'],
            TokenKind::Doc => vec!['d', 'o', 'c'],
            TokenKind::Else => vec!['e', 'l', 's', 'e'],
            TokenKind::End => vec!['e', 'n', 'd'],
            TokenKind::Entry => vec!['e', 'n', 't', 'r', 'y'],
            TokenKind::Enum => vec!['e', 'n', 'u', 'm'],
            TokenKind::Event => vec!['e', 'v', 'e', 'n', 't'],
            TokenKind::Exhibit => vec!['e', 'x', 'h', 'i', 'b', 'i', 't'],
            TokenKind::Exit => vec!['e', 'x', 'i', 't'],
            TokenKind::Expose => vec!['e', 'x', 'p', 'o', 's', 'e'],
            TokenKind::Expr => vec!['e', 'x', 'p', 'r'],
            TokenKind::False => vec!['f', 'a', 'l', 's', 'e'],
            TokenKind::Feature => vec!['f', 'e', 'a', 't', 'u', 'r', 'e'],
            TokenKind::Filter => vec!['f', 'i', 'l', 't', 'e', 'r'],
            TokenKind::First => vec!['f', 'i', 'r', 's', 't'],
            TokenKind::Flow => vec!['f', 'l', 'o', 'w'],
            TokenKind::For => vec!['f', 'o', 'r'],
            TokenKind::Fork => vec!['f', 'o', 'r', 'k'],
            TokenKind::Frame => vec!['f', 'r', 'a', 'm', 'e'],
            TokenKind::From => vec!['f', 'r', 'o', 'm'],
            TokenKind::Function => vec!['f', 'u', 'n', 'c', 't', 'i', 'o', 'n'],
            TokenKind::Hastype => vec!['h', 'a', 's', 't', 'y', 'p', 'e'],
            TokenKind::If => vec!['i', 'f'],
            TokenKind::Implies => vec!['i', 'm', 'p', 'l', 'i', 'e', 's'],
            TokenKind::Import => vec!['i', 'm', 'p', 'o', 'r', 't'],
            TokenKind::In => vec!['i', 'n'],
            TokenKind::Include => vec!['i', 'n', 'c', 'l', 'u', 'd', 'e'],
            TokenKind::Individual => vec!['i', 'n', 'd', 'i', 'v', 'i', 'd', 'u', 'a', 'l'],
            TokenKind::Inout => vec!['i', 'n', 'o', 'u', 't'],
            TokenKind::Instanceof => vec!['i', 'n', 's', 't', 'a', 'n', 'c', 'e', 'o', 'f'],
            TokenKind::Interaction => vec!['i', 'n', 't', 'e', 'r', 'a', 'c', 't', 'i', 'o', 'n'],
            TokenKind::Interface => vec!['i', 'n', 't', 'e', 'r', 'f', 'a', 'c', 'e'],
            TokenKind::Inv => vec!['i', 'n', 'v'],
            TokenKind::Istype => vec!['i', 's', 't', 'y', 'p', 'e'],
            TokenKind::Item => vec!['i', 't', 'e', 'm'],
            TokenKind::Join => vec!['j', 'o', 'i', 'n'],
            TokenKind::Language => vec!['l', 'a', 'n', 'g', 'u', 'a', 'g', 'e'],
            TokenKind::Library => vec!['l', 'i', 'b', 'r', 'a', 'r', 'y'],
            TokenKind::Locale => vec!['l', 'o', 'c', 'a', 'l', 'e'],
            TokenKind::Loop => vec!['l', 'o', 'o', 'p'],
            TokenKind::Merge => vec!['m', 'e', 'r', 'g', 'e'],
            TokenKind::Message => vec!['m', 'e', 's', 's', 'a', 'g', 'e'],
            TokenKind::Meta => vec!['m', 'e', 't', 'a'],
            TokenKind::Metaclass => vec!['m', 'e', 't', 'a', 'c', 'l', 'a', 's', 's'],
            TokenKind::Metadata => vec!['m', 'e', 't', 'a', 'd', 'a', 't', 'a'],
            TokenKind::Namespace => vec!['n', 'a', 'm', 'e', 's', 'p', 'a', 'c', 'e'],
            TokenKind::New => vec!['n', 'e', 'w'],
            TokenKind::Nonunique => vec!['n', 'o', 'n', 'u', 'n', 'i', 'q', 'u', 'e'],
            TokenKind::Not => vec!['n', 'o', 't'],
            TokenKind::Null => vec!['n', 'u', 'l', 'l'],
            TokenKind::Objective => vec!['o', 'b', 'j', 'e', 'c', 't', 'i', 'v', 'e'],
            TokenKind::Occurrence => vec!['o', 'c', 'c', 'u', 'r', 'r', 'e', 'n', 'c', 'e'],
            TokenKind::Of => vec!['o', 'f'],
            TokenKind::Or => vec!['o', 'r'],
            TokenKind::Ordered => vec!['o', 'r', 'd', 'e', 'r', 'e', 'd'],
            TokenKind::Out => vec!['o', 'u', 't'],
            TokenKind::Package => vec!['p', 'a', 'c', 'k', 'a', 'g', 'e'],
            TokenKind::Parallel => vec!['p', 'a', 'r', 'a', 'l', 'l', 'e', 'l'],
            TokenKind::Part => vec!['p', 'a', 'r', 't'],
            TokenKind::Perform => vec!['p', 'e', 'r', 'f', 'o', 'r', 'm'],
            TokenKind::Port => vec!['p', 'o', 'r', 't'],
            TokenKind::Portion => vec!['p', 'o', 'r', 't', 'i', 'o', 'n'],
            TokenKind::Predicate => vec!['p', 'r', 'e', 'd', 'i', 'c', 'a', 't', 'e'],
            TokenKind::Private => vec!['p', 'r', 'i', 'v', 'a', 't', 'e'],
            TokenKind::Protected => vec!['p', 'r', 'o', 't', 'e', 'c', 't', 'e', 'd'],
            TokenKind::Public => vec!['p', 'u', 'b', 'l', 'i', 'c'],
            TokenKind::Readonly => vec!['r', 'e', 'a', 'd', 'o', 'n', 'l', 'y'],
            TokenKind::Redefines => vec!['r', 'e', 'd', 'e', 'f', 'i', 'n', 'e', 's'],
            TokenKind::Ref => vec!['r', 'e', 'f'],
            TokenKind::References => vec!['r', 'e', 'f', 'e', 'r', 'e', 'n', 'c', 'e', 's'],
            TokenKind::Render => vec!['r', 'e', 'n', 'd', 'e', 'r'],
            TokenKind::Rendering => vec!['r', 'e', 'n', 'd', 'e', 'r', 'i', 'n', 'g'],
            TokenKind::Rep => vec!['r', 'e', 'p'],
            TokenKind::Require => vec!['r', 'e', 'q', 'u', 'i', 'r', 'e'],
            TokenKind::Requirement => vec!['r', 'e', 'q', 'u', 'i', 'r', 'e', 'm', 'e', 'n', 't'],
            TokenKind::Return => vec!['r', 'e', 't', 'u', 'r', 'n'],
            TokenKind::Satisfy => vec!['s', 'a', 't', 'i', 's', 'f', 'y'],
            TokenKind::Send => vec!['s', 'e', 'n', 'd'],
            TokenKind::Snapshot => vec!['s', 'n', 'a', 'p', 's', 'h', 'o', 't'],
            TokenKind::Specializes => vec!['s', 'p', 'e', 'c', 'i', 'a', 'l', 'i', 'z', 'e', 's'],
            TokenKind::Stakeholder => vec!['s', 't', 'a', 'k', 'e', 'h', 'o', 'l', 'd', 'e', 'r'],
            TokenKind::Standard => vec!['s', 't', 'a', 'n', 'd', 'a', 'r', 'd'],
            TokenKind::State => vec!['s', 't', 'a', 't', 'e'],
            TokenKind::Step => vec!['s', 't', 'e', 'p'],
            TokenKind::Struct => vec!['s', 't', 'r', 'u', 'c', 't'],
            TokenKind::Subject => vec!['s', 'u', 'b', 'j', 'e', 'c', 't'],
            TokenKind::Subsets => vec!['s', 'u', 'b', 's', 'e', 't', 's'],
            TokenKind::Succession => vec!['s', 'u', 'c', 'c', 'e', 's', 's', 'i', 'o', 'n'],
            TokenKind::Terminate => vec!['t', 'e', 'r', 'm', 'i', 'n', 'a', 't', 'e'],
            TokenKind::Then => vec!['t', 'h', 'e', 'n'],
            TokenKind::Timeslice => vec!['t', 'i', 'm', 'e', 's', 'l', 'i', 'c', 'e'],
            TokenKind::To => vec!['t', 'o'],
            TokenKind::Transition => vec!['t', 'r', 'a', 'n', 's', 'i', 't', 'i', 'o', 'n'],
            TokenKind::True => vec!['t', 'r', 'u', 'e'],
            TokenKind::Type => vec!['t', 'y', 'p', 'e'],
            TokenKind::Typed => vec!['t', 'y', 'p', 'e', 'd'],
            TokenKind::Until => vec!['u', 'n', 't', 'i', 'l'],
            TokenKind::Use => vec!['u', 's', 'e'],
            TokenKind::Variant => vec!['v', 'a', 'r', 'i', 'a', 'n', 't'],
            TokenKind::Variation => vec!['v', 'a', 'r', 'i', 'a', 't', 'i', 'o', 'n'],
            TokenKind::Verification => vec!['v', 'e', 'r', 'i', 'f', 'i', 'c', 'a', 't', 'i', 'o', 'n'],
            TokenKind::Verify => vec!['v', 'e', 'r', 'i', 'f', 'y'],
            TokenKind::Via => vec!['v', 'i', 'a'],
            TokenKind::View => vec!['v', 'i', 'e', 'w'],
            TokenKind::Viewpoint => vec!['v', 'i', 'e', 'w', 'p', 'o', 'i', 'n', 't'],
            TokenKind::When => vec!['w', 'h', 'e', 'n'],
            TokenKind::While => vec!['w', 'h', 'i', 'l', 'e'],
            TokenKind::Xor => vec!['x', 'o', 'r'],
            TokenKind::ColonColonGt => vec![':', ':', '>'],
            TokenKind::ColonGtGt => vec![':', '>', '>'],
            TokenKind::EqEqEq => vec!['=', '=', '='],
            TokenKind::BangEqEq => vec!['!', '=', '='],
            TokenKind::ColonColon => vec![':', ':'],
            TokenKind::ColonGt => vec![':', '>'],
            TokenKind::ColonEq => vec![':', '='],
            TokenKind::FatArrow => vec!['=', '>'],
            TokenKind::Arrow => vec!['-', '>'],
            TokenKind::DotDot => vec!['.', '.'],
            TokenKind::DotQuestion => vec!['.', '?'],
            TokenKind::StarStar => vec!['*', '*'],
            TokenKind::LtEq => vec!['<', '='],
            TokenKind::GtEq => vec!['>', '='],
            TokenKind::EqEq => vec!['=', '='],
            TokenKind::BangEq => vec!['!', '='],
            TokenKind::QuestionQuestion => vec!['?', '?'],
            TokenKind::DoubleAtSign => vec!['@', '@'],
            TokenKind::LBrace => vec!['{'],
            TokenKind::RBrace => vec!['}'],
            TokenKind::LParen => vec!['('],
            TokenKind::RParen => vec![')'],
            TokenKind::LBracket => vec!['['],
            TokenKind::RBracket => vec![']'],
            TokenKind::SemiColon => vec![';'],
            TokenKind::Comma => vec![','],
            TokenKind::Colon => vec![':'],
            TokenKind::Dot => vec!['.'],
            TokenKind::Eq => vec!['='],
            TokenKind::Tilde => vec!['~'],
            TokenKind::Star => vec!['*'],
            TokenKind::Plus => vec!['+'],
            TokenKind::Minus => vec!['-'],
            TokenKind::Slash => vec!['/'],
            TokenKind::Percent => vec!['%'],
            TokenKind::Caret => vec!['^'],
            TokenKind::Lt => vec!['<'],
            TokenKind::Gt => vec!['>'],
            TokenKind::Bang => vec!['!'],
            TokenKind::Amp => vec!['&'],
            TokenKind::Pipe => vec!['|'],
            TokenKind::Question => vec!['?'],
            TokenKind::AtSign => vec!['@'],
            TokenKind::Hash => vec!['#'],
        }
    }

    /// The spelling of a keyword or symbol kind; empty for the open classes.
    pub fn text(&self) -> (r: String)
        ensures
            r@ == self.spec_text(),
    {
        let cs = self.text_chars();
        string_from_chars(&cs, 0, cs.len())
    }

    /// The keyword spelled `word`, or `None` when `word` is not reserved.
    pub fn from_keyword(word: &str) -> (r: Option<TokenKind>)
        ensures
            r == keyword_of(word@),
            r is Some <==> reserved_words().contains(word@),
            r matches Some(k) ==> k.spec_text() == word@,
    {
        proof {
            lemma_keyword_of(word@);
        }
        let cs = chars_of(word);
        let table = keyword_kinds();
        assert(cs@.subrange(0, cs@.len() as int) =~= cs@);
        lookup_range(&table, &cs, 0, cs.len())
    }

    /// The symbol spelled `symbol`, or `None` when `symbol` is not reserved.
    pub fn from_symbol(symbol: &str) -> (r: Option<TokenKind>)
        ensures
            r == symbol_of(symbol@),
            r is Some <==> reserved_symbol_spellings().contains(symbol@),
            r matches Some(k) ==> k.spec_text() == symbol@,
    {
        proof {
            lemma_symbol_of(symbol@);
        }
        let cs = chars_of(symbol);
        let table = symbol_kinds();
        assert(cs@.subrange(0, cs@.len() as int) =~= cs@);
        lookup_range(&table, &cs, 0, cs.len())
    }
}

/// The reserved keywords, in table order.
pub fn keyword_kinds() -> (r: Vec<TokenKind>)
    ensures
        r@ == keywords(),
{
    let mut r = vec![
        TokenKind::About,
        TokenKind::Abstract,
        TokenKind::Accept,
        TokenKind::Action,
        TokenKind::Actor,
        TokenKind::After,
        TokenKind::Alias,
        TokenKind::All,
        TokenKind::Allocate,
        TokenKind::Allocation,
        TokenKind::Analysis,
        TokenKind::And,
        TokenKind::As,
        TokenKind::Assert,
        TokenKind::Assign,
        TokenKind::Assoc,
        TokenKind::Assume,
        TokenKind::At,
        TokenKind::Attribute,
        TokenKind::Behavior,
        TokenKind::Bind,
        TokenKind::Binding,
        TokenKind::Bool,
        TokenKind::By,
        TokenKind::Calc,
        TokenKind::Case,
    ];
    let mut block = vec![
        TokenKind::Class,
        TokenKind::Classifier,
        TokenKind::CommentKeyword,
        TokenKind::Concern,
        TokenKind::Conjugates,
        TokenKind::Connect,
        TokenKind::Connection,
        TokenKind::Connector,
        TokenKind::Constant,
        TokenKind::Constraint,
        TokenKind::Crosses,
        TokenKind::Datatype,
        TokenKind::Decide,
        TokenKind::Def,
        TokenKind::Default,
        TokenKind::Defined,
        TokenKind::Dependency,
        TokenKind::Derived,
        TokenKind::Do,
        TokenKind::Doc,
        TokenKind::Else,
        TokenKind::End,
        TokenKind::Entry,
        TokenKind::Enum,
        TokenKind::Event,
        TokenKind::Exhibit,
    ];
    r.append(&mut block);
    let mut block = vec![
        TokenKind::Exit,
        TokenKind::Expose,
        TokenKind::Expr,
        TokenKind::False,
        TokenKind::Feature,
        TokenKind::Filter,
        TokenKind::First,
        TokenKind::Flow,
        TokenKind::For,
        TokenKind::Fork,
        TokenKind::Frame,
        TokenKind::From,
        TokenKind::Function,
        TokenKind::Hastype,
        TokenKind::If,
        TokenKind::Implies,
        TokenKind::Import,
        TokenKind::In,
        TokenKind::Include,
        TokenKind::Individual,
        TokenKind::Inout,
        TokenKind::Instanceof,
        TokenKind::Interaction,
        TokenKind::Interface,
        TokenKind::Inv,
        TokenKind::Istype,
    ];
    r.append(&mut block);
    let mut block = vec![
        TokenKind::Item,
        TokenKind::Join,
        TokenKind::Language,
        TokenKind::Library,
        TokenKind::Locale,
        TokenKind::Loop,
        TokenKind::Merge,
        TokenKind::Message,
        TokenKind::Meta,
        TokenKind::Metaclass,
        TokenKind::Metadata,
        TokenKind::Namespace,
        TokenKind::New,
        TokenKind::Nonunique,
        TokenKind::Not,
        TokenKind::Null,
        TokenKind::Objective,
        TokenKind::Occurrence,
        TokenKind::Of,
        TokenKind::Or,
        TokenKind::Ordered,
        TokenKind::Out,
        TokenKind::Package,
        TokenKind::Parallel,
        TokenKind::Part,
        TokenKind::Perform,
    ];
    r.append(&mut block);
    let mut block = vec![
        TokenKind::Port,
        TokenKind::Portion,
        TokenKind::Predicate,
        TokenKind::Private,
        TokenKind::Protected,
        TokenKind::Public,
        TokenKind::Readonly,
        TokenKind::Redefines,
        TokenKind::Ref,
        TokenKind::References,
        TokenKind::Render,
        TokenKind::Rendering,
        TokenKind::Rep,
        TokenKind::Require,
        TokenKind::Requirement,
        TokenKind::Return,
        TokenKind::Satisfy,
        TokenKind::Send,
        TokenKind::Snapshot,
        TokenKind::Specializes,
        TokenKind::Stakeholder,
        TokenKind::Standard,
        TokenKind::State,
        TokenKind::Step,
        TokenKind::Struct,
        TokenKind::Subject,
    ];
    r.append(&mut block);
    let mut block = vec![
        TokenKind::Subsets,
        TokenKind::Succession,
        TokenKind::Terminate,
        TokenKind::Then,
        TokenKind::Timeslice,
        TokenKind::To,
        TokenKind::Transition,
        TokenKind::True,
        TokenKind::Type,
        TokenKind::Typed,
        TokenKind::Until,
        TokenKind::Use,
        TokenKind::Variant,
        TokenKind::Variation,
        TokenKind::Verification,
        TokenKind::Verify,
        TokenKind::Via,
        TokenKind::View,
        TokenKind::Viewpoint,
        TokenKind::When,
        TokenKind::While,
        TokenKind::Xor,
    ];
    r.append(&mut block);
    r
}

/// The reserved symbols, longest first.
pub fn symbol_kinds() -> (r: Vec<TokenKind>)
    ensures
        r@ == symbols(),
{
    vec![
        TokenKind::ColonColonGt,
        TokenKind::ColonGtGt,
        TokenKind::EqEqEq,
        TokenKind::BangEqEq,
        TokenKind::ColonColon,
        TokenKind::ColonGt,
        TokenKind::ColonEq,
        TokenKind::FatArrow,
        TokenKind::Arrow,
        TokenKind::DotDot,
        TokenKind::DotQuestion,
        TokenKind::StarStar,
        TokenKind::LtEq,
        TokenKind::GtEq,
        TokenKind::EqEq,
        TokenKind::BangEq,
        TokenKind::QuestionQuestion,
        TokenKind::DoubleAtSign,
        TokenKind::LBrace,
        TokenKind::RBrace,
        TokenKind::LParen,
        TokenKind::RParen,
        TokenKind::LBracket,
        TokenKind::RBracket,
        TokenKind::SemiColon,
        TokenKind::Comma,
        TokenKind::Colon,
        TokenKind::Dot,
        TokenKind::Eq,
        TokenKind::Tilde,
        TokenKind::Star,
        TokenKind::Plus,
        TokenKind::Minus,
        TokenKind::Slash,
        TokenKind::Percent,
        TokenKind::Caret,
        TokenKind::Lt,
        TokenKind::Gt,
        TokenKind::Bang,
        TokenKind::Amp,
        TokenKind::Pipe,
        TokenKind::Question,
        TokenKind::AtSign,
        TokenKind::Hash,
    ]
}

/// The first kind of `table` spelled like `s[from..to]`.
pub fn lookup_range(table: &Vec<TokenKind>, s: &Vec<char>, from: usize, to: usize) -> (r: Option<
    TokenKind,
>)
    requires
        from <= to <= s.len(),
    ensures
        r == lookup_text(table@, s@.subrange(from as int, to as int)),
{
    let ghost word = s@.subrange(from as int, to as int);
    let mut n: usize = 0;
    assert(table@.skip(0) =~= table@);
    while n < table.len()
        invariant
            n <= table.len(),
            from <= to <= s.len(),
            word == s@.subrange(from as int, to as int),
            lookup_text(table@, word) == lookup_text(table@.skip(n as int), word),
        decreases table.len() - n,
    {
        let kind = table[n];
        let t = kind.text_chars();
        assert(table@.skip(n as int).drop_first() =~= table@.skip(n + 1));
        if t.len() == to - from && chars_match(s, from, &t) {
            return Some(kind);
        }
        n = n + 1;
    }
    None
}

/// The reserved words of the notation, in alphabetical order, in blocks of
/// at most 26.
pub open spec fn reserved_word_block(j: int) -> Seq<Seq<char>> {
    if j == 0 {
        seq![
            seq!['a', 'b', 'o', 'u', 't'],
            seq!['a', 'b', 's', 't', 'r', 'a', 'c', 't'],
            seq!['a', 'c', 'c', 'e', 'p', 't'],
            seq!['a', 'c', 't', 'i', 'o', 'n'],
            seq!['a', 'c', 't', 'o', 'r'],
            seq!['a', 'f', 't', 'e', 'r'],
            seq!['a', 'l', 'i', 'a', 's'],
            seq!['a', 'l', 'l'],
            seq!['a', 'l', 'l', 'o', 'c', 'a', 't', 'e'],
            seq!['a', 'l', 'l', 'o', 'c', 'a', 't', 'i', 'o', 'n'],
            seq!['a', 'n', 'a', 'l', 'y', 's', 'i', 's'],
            seq!['a', 'n', 'd'],
            seq!['a', 's'],
            seq!['a', 's', 's', 'e', 'r', 't'],
            seq!['a', 's', 's', 'i', 'g', 'n'],
            seq!['a', 's', 's', 'o', 'c'],
            seq!['a', 's', 's', 'u', 'm', 'e'],
            seq!['a', 't'],
            seq!['a', 't', 't', 'r', 'i', 'b', 'u', 't', 'e'],
            seq!['b', 'e', 'h', 'a', 'v', 'i', 'o', 'r'],
            seq!['b', 'i', 'n', 'd'],
            seq!['b', 'i', 'n', 'd', 'i', 'n', 'g'],
            seq!['b', 'o', 'o', 'l'],
            seq!['b', 'y'],
            seq!['c', 'a', 'l', 'c'],
            seq!['c', 'a', 's', 'e'],
        ]
    } else if j == 1 {
        seq![
            seq!['c', 'l', 'a', 's', 's'],
            seq!['c', 'l', 'a', 's', 's', 'i', 'f', 'i', 'e', 'r'],
            seq!['c', 'o', 'm', 'm', 'e', 'n', 't'],
            seq!['c', 'o', 'n', 'c', 'e', 'r', 'n'],
            seq!['c', 'o', 'n', 'j', 'u', 'g', 'a', 't', 'e', 's'],
            seq!['c', 'o', 'n', 'n', 'e', 'c', 't'],
            seq!['c', 'o', 'n', 'n', 'e', 'c', 't', 'i', 'o', 'n'],
            seq!['c', 'o', 'n', 'n', 'e', 'c', 't', 'o', 'r'],
            seq!['c', 'o', 'n', 's', 't', 'a', 'n', 't'],
            seq!['c', 'o', 'n', 's', 't', 'r', 'a', 'i', 'n', 't'],
            seq!['c', 'r', 'o', 's', 's', 'e', 's'],
            seq!['d', 'a', 't', 'a', 't', 'y', 'p', 'e'],
            seq!['d', 'e', 'c', 'i', 'd', 'e'],
            seq!['d', 'e', 'f'],
            seq!['d', 'e', 'f', 'a', 'u', 'l', 't'],
            seq!['d', 'e', 'f', 'i', 'n', 'e', 'd'],
            seq!['d', 'e', 'p', 'e', 'n', 'd', 'e', 'n', 'c', 'y'],
            seq!['d', 'e', 'r', 'i', 'v', 'e', 'd'],
            seq!['d', 'o'],
            seq!['d', 'o', 'c'],
            seq!['e', 'l', 's', 'e'],
            seq!['e', 'n', 'd'],
            seq!['e', 'n', 't', 'r', 'y'],
            seq!['e', 'n', 'u', 'm'],
            seq!['e', 'v', 'e', 'n', 't'],
            seq!['e', 'x', 'h', 'i', 'b', 'i', 't'],
        ]
    } else if j == 2 {
        seq![
            seq!['e', 'x', 'i', 't'],
            seq!['e', 'x', 'p', 'o', 's', 'e'],
            seq!['e', 'x', 'p', 'r'],
            seq!['f', 'a', 'l', 's', 'e'],
            seq!['f', 'e', 'a', 't', 'u', 'r', 'e'],
            seq!['f', 'i', 'l', 't', 'e', 'r'],
            seq!['f', 'i', 'r', 's', 't'],
            seq!['f', 'l', 'o', 'w'],
            seq!['f', 'o', 'r'],
            seq!['f', 'o', 'r', 'k'],
            seq!['f', 'r', 'a', 'm', 'e'],
            seq!['f', 'r', 'o', 'm'],
            seq!['f', 'u', 'n', 'c', 't', 'i', 'o', 'n'],
            seq!['h', 'a', 's', 't', 'y', 'p', 'e'],
            seq!['i', 'f'],
            seq!['i', 'm', 'p', 'l', 'i', 'e', 's'],
            seq!['i', 'm', 'p', 'o', 'r', 't'],
            seq!['i', 'n'],
            seq!['i', 'n', 'c', 'l', 'u', 'd', 'e'],
            seq!['i', 'n', 'd', 'i', 'v', 'i', 'd', 'u', 'a', 'l'],
            seq!['i', 'n', 'o', 'u', 't'],
            seq!['i', 'n', 's', 't', 'a', 'n', 'c', 'e', 'o', 'f'],
            seq!['i', 'n', 't', 'e', 'r', 'a', 'c', 't', 'i', 'o', 'n'],
            seq!['i', 'n', 't', 'e', 'r', 'f', 'a', 'c', 'e'],
            seq!['i', 'n', 'v'],
            seq!['i', 's', 't', 'y', 'p', 'e'],
        ]
    } else if j == 3 {
        seq![
            seq!['i', 't', 'e', 'm'],
            seq!['j', 'o', 'i', 'n'],
            seq!['l', 'a', 'n', 'g', 'u', 'a', 'g', 'e'],
            seq!['l', 'i', 'b', 'r', 'a', 'r', 'y'],
            seq!['l', 'o', 'c', 'a', 'l', 'e'],
            seq!['l', 'o', 'o', 'p'],
            seq!['m', 'e', 'r', 'g', 'e'],
            seq!['m', 'e', 's', 's', 'a', 'g', 'e'],
            seq!['m', 'e', 't', 'a'],
            seq!['m', 'e', 't', 'a', 'c', 'l', 'a', 's', 's'],
            seq!['m', 'e', 't', 'a', 'd', 'a', 't', 'a'],
            seq!['n', 'a', 'm', 'e', 's', 'p', 'a', 'c', 'e'],
            seq!['n', 'e', 'w'],
            seq!['n', 'o', 'n', 'u', 'n', 'i', 'q', 'u', 'e'],
            seq!['n', 'o', 't'],
            seq!['n', 'u', 'l', 'l'],
            seq!['o', 'b', 'j', 'e', 'c', 't', 'i', 'v', 'e'],
            seq!['o', 'c', 'c', 'u', 'r', 'r', 'e', 'n', 'c', 'e'],
            seq!['o', 'f'],
            seq!['o', 'r'],
            seq!['o', 'r', 'd', 'e', 'r', 'e', 'd'],
            seq!['o', 'u', 't'],
            seq!['p', 'a', 'c', 'k', 'a', 'g', 'e'],
            seq!['p', 'a', 'r', 'a', 'l', 'l', 'e', 'l'],
            seq!['p', 'a', 'r', 't'],
            seq!['p', 'e', 'r', 'f', 'o', 'r', 'm'],
        ]
    } else if j == 4 {
        seq![
            seq!['p', 'o', 'r', 't'],
            seq!['p', 'o', 'r', 't', 'i', 'o', 'n'],
            seq!['p', 'r', 'e', 'd', 'i', 'c', 'a', 't', 'e'],
            seq!['p', 'r', 'i', 'v', 'a', 't', 'e'],
            seq!['p', 'r', 'o', 't', 'e', 'c', 't', 'e', 'd'],
            seq!['p', 'u', 'b', 'l', 'i', 'c'],
            seq!['r', 'e', 'a', 'd', 'o', 'n', 'l', 'y'],
            seq!['r', 'e', 'd', 'e', 'f', 'i', 'n', 'e', 's'],
            seq!['r', 'e', 'f'],
            seq!['r', 'e', 'f', 'e', 'r', 'e', 'n', 'c', 'e', 's'],
            seq!['r', 'e', 'n', 'd', 'e', 'r'],
            seq!['r', 'e', 'n', 'd', 'e', 'r', 'i', 'n', 'g'],
            seq!['r', 'e', 'p'],
            seq!['r', 'e', 'q', 'u', 'i', 'r', 'e'],
            seq!['r', 'e', 'q', 'u', 'i', 'r', 'e', 'm', 'e', 'n', 't'],
            seq!['r', 'e', 't', 'u', 'r', 'n'],
            seq!['s', 'a', 't', 'i', 's', 'f', 'y'],
            seq!['s', 'e', 'n', 'd'],
            seq!['s', 'n', 'a', 'p', 's', 'h', 'o', 't'],
            seq!['s', 'p', 'e', 'c', 'i', 'a', 'l', 'i', 'z', 'e', 's'],
            seq!['s', 't', 'a', 'k', 'e', 'h', 'o', 'l', 'd', 'e', 'r'],
            seq!['s', 't', 'a', 'n', 'd', 'a', 'r', 'd'],
            seq!['s', 't', 'a', 't', 'e'],
            seq!['s', 't', 'e', 'p'],
            seq!['s', 't', 'r', 'u', 'c', 't'],
            seq!['s', 'u', 'b', 'j', 'e', 'c', 't'],
        ]
    } else if j == 5 {
        seq![
            seq!['s', 'u', 'b', 's', 'e', 't', 's'],
            seq!['s', 'u', 'c', 'c', 'e', 's', 's', 'i', 'o', 'n'],
            seq!['t', 'e', 'r', 'm', 'i', 'n', 'a', 't', 'e'],
            seq!['t', 'h', 'e', 'n'],
            seq!['t', 'i', 'm', 'e', 's', 'l', 'i', 'c', 'e'],
            seq!['t', 'o'],
            seq!['t', 'r', 'a', 'n', 's', 'i', 't', 'i', 'o', 'n'],
            seq!['t', 'r', 'u', 'e'],
            seq!['t', 'y', 'p', 'e'],
            seq!['t', 'y', 'p', 'e', 'd'],
            seq!['u', 'n', 't', 'i', 'l'],
            seq!['u', 's', 'e'],
            seq!['v', 'a', 'r', 'i', 'a', 'n', 't'],
            seq!['v', 'a', 'r', 'i', 'a', 't', 'i', 'o', 'n'],
            seq!['v', 'e', 'r', 'i', 'f', 'i', 'c', 'a', 't', 'i', 'o', 'n'],
            seq!['v', 'e', 'r', 'i', 'f', 'y'],
            seq!['v', 'i', 'a'],
            seq!['v', 'i', 'e', 'w'],
            seq!['v', 'i', 'e', 'w', 'p', 'o', 'i', 'n', 't'],
            seq!['w', 'h', 'e', 'n'],
            seq!['w', 'h', 'i', 'l', 'e'],
            seq!['x', 'o', 'r'],
        ]
    } else {
        seq![]
    }
}

/// The reserved words of the notation, in alphabetical order.
pub open spec fn reserved_words() -> Seq<Seq<char>> {
    reserved_word_block(0) + reserved_word_block(1) + reserved_word_block(2) + reserved_word_block(3) + reserved_word_block(4) + reserved_word_block(5)
}

/// The reserved symbols of the notation, longest first.
pub open spec fn reserved_symbol_spellings() -> Seq<Seq<char>> {
    seq![
        seq![':', ':', '>'],
        seq![':', '>', '>'],
        seq!['=', '=', '='],
        seq!['!', '=', '='],
        seq![':', ':'],
        seq![':', '>'],
        seq![':', '='],
        seq!['=', '>'],
        seq!['-', '>'],
        seq!['.', '.'],
        seq!['.', '?'],
        seq!['*', '*'],
        seq!['<', '='],
        seq!['>', '='],
        seq!['=', '='],
        seq!['!', '='],
        seq!['?', '?'],
        seq!['@', '@'],
        seq!['{'],
        seq!['}'],
        seq!['('],
        seq![')'],
        seq!['['],
        seq![']'],
        seq![';'],
        seq![','],
        seq![':'],
        seq!['.'],
        seq!['='],
        seq!['~'],
        seq!['*'],
        seq!['+'],
        seq!['-'],
        seq!['/'],
        seq!['%'],
        seq!['^'],
        seq!['<'],
        seq!['>'],
        seq!['!'],
        seq!['&'],
        seq!['|'],
        seq!['?'],
        seq!['@'],
        seq!['#'],
    ]
}

proof fn lemma_spellings_concat(a: Seq<TokenKind>, b: Seq<TokenKind>)
    ensures
        (a + b).map_values(|k: TokenKind| k.spec_text()) == a.map_values(|k: TokenKind| k.spec_text())
            + b.map_values(|k: TokenKind| k.spec_text()),
{
    assert((a + b).map_values(|k: TokenKind| k.spec_text()) =~= a.map_values(
        |k: TokenKind| k.spec_text(),
    ) + b.map_values(|k: TokenKind| k.spec_text()));
}

proof fn lemma_keyword_block(j: int)
    ensures
        keyword_block(j).map_values(|k: TokenKind| k.spec_text()) == reserved_word_block(j),
{
    assert(keyword_block(j).map_values(|k: TokenKind| k.spec_text()) =~= reserved_word_block(j));
}

/// The keyword table spells out exactly the reserved words, in order.
pub proof fn lemma_keyword_table()
    ensures
        keywords().map_values(|k: TokenKind| k.spec_text()) == reserved_words(),
{
    lemma_keyword_block(0);
    lemma_keyword_block(1);
    lemma_keyword_block(2);
    lemma_keyword_block(3);
    lemma_keyword_block(4);
    lemma_keyword_block(5);
    lemma_spellings_concat(keyword_block(0), keyword_block(1));
    lemma_spellings_concat(keyword_block(0) + keyword_block(1), keyword_block(2));
    lemma_spellings_concat(keyword_block(0) + keyword_block(1) + keyword_block(2), keyword_block(3));
    lemma_spellings_concat(keyword_block(0) + keyword_block(1) + keyword_block(2) + keyword_block(3), keyword_block(4));
    lemma_spellings_concat(keyword_block(0) + keyword_block(1) + keyword_block(2) + keyword_block(3) + keyword_block(4), keyword_block(5));
}

/// The symbol table spells out exactly the reserved symbols, in order.
pub proof fn lemma_symbol_table()
    ensures
        symbols().map_values(|k: TokenKind| k.spec_text()) == reserved_symbol_spellings(),
{
    assert(symbols().map_values(|k: TokenKind| k.spec_text()) =~= reserved_symbol_spellings());
}

/// A kind of `ks` is found again from its own spelling.
pub proof fn lemma_lookup_own_text(ks: Seq<TokenKind>, k: TokenKind)
    requires
        ks.contains(k),
    ensures
        lookup_text(ks, k.spec_text()) is Some,
    decreases ks.len(),
{
    if ks[0].spec_text() != k.spec_text() {
        let n = choose|n: int| 0 <= n < ks.len() && ks[n] == k;
        assert(n != 0);
        assert(ks.drop_first()[n - 1] == k);
        lemma_lookup_own_text(ks.drop_first(), k);
    }
}

/// What `lookup_text` finds is a kind of the table spelled like the word.
pub proof fn lemma_lookup_sound(ks: Seq<TokenKind>, word: Seq<char>)
    ensures
        lookup_text(ks, word) matches Some(k) ==> k.spec_text() == word && ks.contains(k),
    decreases ks.len(),
{
    if ks.len() > 0 && ks[0].spec_text() != word {
        lemma_lookup_sound(ks.drop_first(), word);
        if let Some(k) = lookup_text(ks.drop_first(), word) {
            let n = choose|n: int| 0 <= n < ks.drop_first().len() && ks.drop_first()[n] == k;
            assert(ks[n + 1] == k);
        }
    } else if ks.len() > 0 {
        assert(ks[0] == ks[0]);
    }
}

proof fn lemma_table_words(ks: Seq<TokenKind>, words: Seq<Seq<char>>, word: Seq<char>)
    requires
        ks.map_values(|k: TokenKind| k.spec_text()) == words,
    ensures
        lookup_text(ks, word) is Some <==> words.contains(word),
        lookup_text(ks, word) matches Some(k) ==> k.spec_text() == word,
{
    lemma_lookup_sound(ks, word);
    if let Some(k) = lookup_text(ks, word) {
        let n = choose|n: int| 0 <= n < ks.len() && ks[n] == k;
        assert(words[n] == ks.map_values(|k: TokenKind| k.spec_text())[n]);
    }
    if words.contains(word) {
        let n = choose|n: int| 0 <= n < words.len() && words[n] == word;
        assert(ks.map_values(|k: TokenKind| k.spec_text())[n] == ks[n].spec_text());
        assert(ks.contains(ks[n]));
        lemma_lookup_own_text(ks, ks[n]);
    }
}

/// `from_keyword` recognizes exactly the reserved words, each as a kind
/// spelled that way.
pub proof fn lemma_keyword_of(word: Seq<char>)
    ensures
        keyword_of(word) is Some <==> reserved_words().contains(word),
        keyword_of(word) matches Some(k) ==> k.spec_text() == word,
{
    lemma_keyword_table();
    lemma_table_words(keywords(), reserved_words(), word);
}

/// `from_symbol` recognizes exactly the reserved symbols, each as a kind
/// spelled that way.
pub proof fn lemma_symbol_of(word: Seq<char>)
    ensures
        symbol_of(word) is Some <==> reserved_symbol_spellings().contains(word),
        symbol_of(word) matches Some(k) ==> k.spec_text() == word,
{
    lemma_symbol_table();
    lemma_table_words(symbols(), reserved_symbol_spellings(), word);
}

} // verus!
