//! Tokens: a kind and the exact text that was read for it.
use vstd::prelude::*;
use vstd::string::StrSliceExecFns;

verus! {

/// The kind of a token.
///
/// Reserved words have kinds of their own; every other identifier-shaped text
/// is `Identifier`. Each bracket shape has its own kind: `(`/`)` are parens,
/// `[`/`]` brackets and `{`/`}` braces.
#[derive(Debug, Clone, Copy, PartialEq, Eq, Structural)]
pub enum TokenType {
    Atom,
    /// A boolean literal. The scanner reads `true` and `false` as the reserved
    /// words `True` and `False`, so it never yields this kind.
    Boolean,
    Char,
    Comma,
    Comment,
    Identifier,
    NewLine,
    Number,
    Operator,
    Quote,
    WhiteSpace,
    // Reserved words
    Alias,
    And,
    Break,
    Cond,
    Def,
    Defmacro,
    Defmodule,
    Do,
    Doc,
    Else,
    ElseIf,
    End,
    False,
    For,
    If,
    Import,
    In,
    ModuleDoc,
    Nil,
    Not,
    Or,
    Require,
    Spec,
    Then,
    True,
    Type,
    Unless,
    Use,
    /// A variable name. The scanner yields `Identifier` for names, never this
    /// kind; it counts as identifier-shaped all the same.
    Var,
    // Delimiters
    LeftParen,
    RightParen,
    LeftBracket,
    RightBracket,
    LeftBrace,
    RightBrace,
    Percent,
}

/// A token: its kind and the text of the input it was read from.
#[derive(Debug, Clone, PartialEq, Eq)]
pub struct Token {
    pub value: String,
    pub ty: TokenType,
}

impl View for Token {
    type V = (TokenType, Seq<char>);

    open spec fn view(&self) -> (TokenType, Seq<char>) {
        (self.ty, self.value@)
    }
}

impl Token {
    pub fn new(kind: TokenType, value: String) -> (r: Token)
        ensures
            r.ty == kind,
            r.value@ == value@,
    {
        Token { ty: kind, value }
    }

    pub fn ty(&self) -> (r: TokenType)
        ensures
            r == self.ty,
    {
        self.ty
    }

    pub fn value(&self) -> (r: String)
        ensures
            r@ == self.value@,
    {
        self.value.clone()
    }
}

impl TokenType {
    /// The kinds of the delimiter tokens.
    pub open spec fn spec_is_delimiter(self) -> bool {
        match self {
            TokenType::LeftParen | TokenType::RightParen | TokenType::LeftBracket
            | TokenType::RightBracket | TokenType::LeftBrace | TokenType::RightBrace
            | TokenType::Percent => true,
            _ => false,
        }
    }

    /// The kinds of identifier-shaped tokens: reserved words and plain identifiers.
    pub open spec fn spec_is_identifier(self) -> bool {
        match self {
            TokenType::Alias | TokenType::And | TokenType::Break | TokenType::Cond
            | TokenType::Def | TokenType::Defmacro | TokenType::Defmodule | TokenType::Do
            | TokenType::Doc | TokenType::Else | TokenType::ElseIf | TokenType::End
            | TokenType::False | TokenType::For | TokenType::If | TokenType::Import
            | TokenType::In | TokenType::ModuleDoc | TokenType::Nil | TokenType::Not
            | TokenType::Or | TokenType::Require | TokenType::Spec | TokenType::Then
            | TokenType::True | TokenType::Type | TokenType::Unless | TokenType::Use
            | TokenType::Var | TokenType::Identifier => true,
            _ => false,
        }
    }

    pub fn is_atom(&self) -> (r: bool)
        ensures
            r == (*self == TokenType::Atom),
    {
        matches!(self, TokenType::Atom)
    }

    pub fn is_boolean(&self) -> (r: bool)
        ensures
            r == (*self == TokenType::Boolean),
    {
        matches!(self, TokenType::Boolean)
    }

    pub fn is_char(&self) -> (r: bool)
        ensures
            r == (*self == TokenType::Char),
    {
        matches!(self, TokenType::Char)
    }

    pub fn is_comment(&self) -> (r: bool)
        ensures
            r == (*self == TokenType::Comment),
    {
        matches!(self, TokenType::Comment)
    }

    pub fn is_comma(&self) -> (r: bool)
        ensures
            r == (*self == TokenType::Comma),
    {
        matches!(self, TokenType::Comma)
    }

    pub fn is_delimiter(&self) -> (r: bool)
        ensures
            r == self.spec_is_delimiter(),
    {
        matches!(
            self,
            TokenType::LeftParen | TokenType::RightParen | TokenType::LeftBracket
                | TokenType::RightBracket | TokenType::LeftBrace | TokenType::RightBrace
                | TokenType::Percent
        )
    }

    pub fn is_identifier(&self) -> (r: bool)
        ensures
            r == self.spec_is_identifier(),
    {
        matches!(
            self,
            TokenType::Alias | TokenType::And | TokenType::Break | TokenType::Cond
                | TokenType::Def | TokenType::Defmacro | TokenType::Defmodule | TokenType::Do
                | TokenType::Doc | TokenType::Else | TokenType::ElseIf | TokenType::End
                | TokenType::False | TokenType::For | TokenType::If | TokenType::Import
                | TokenType::In | TokenType::ModuleDoc | TokenType::Nil | TokenType::Not
                | TokenType::Or | TokenType::Require | TokenType::Spec | TokenType::Then
                | TokenType::True | TokenType::Type | TokenType::Unless | TokenType::Use
                | TokenType::Var | TokenType::Identifier
        )
    }

    pub fn is_newline(&self) -> (r: bool)
        ensures
            r == (*self == TokenType::NewLine),
    {
        matches!(self, TokenType::NewLine)
    }

    pub fn is_number(&self) -> (r: bool)
        ensures
            r == (*self == TokenType::Number),
    {
        matches!(self, TokenType::Number)
    }

    pub fn is_operator(&self) -> (r: bool)
        ensures
            r == (*self == TokenType::Operator),
    {
        matches!(self, TokenType::Operator)
    }

    pub fn is_quote(&self) -> (r: bool)
        ensures
            r == (*self == TokenType::Quote),
    {
        matches!(self, TokenType::Quote)
    }

    pub fn is_whitespace(&self) -> (r: bool)
        ensures
            r == (*self == TokenType::WhiteSpace),
    {
        matches!(self, TokenType::WhiteSpace)
    }
}

/// The kind of an identifier-shaped text: its reserved word's kind, or
/// `Identifier` for any other text.
pub open spec fn keyword_kind(w: Seq<char>) -> TokenType {
    if w == "alias"@ {
        TokenType::Alias
    } else if w == "and"@ {
        TokenType::And
    } else if w == "break"@ {
        TokenType::Break
    } else if w == "cond"@ {
        TokenType::Cond
    } else if w == "def"@ {
        TokenType::Def
    } else if w == "defmacro"@ {
        TokenType::Defmacro
    } else if w == "defmodule"@ {
        TokenType::Defmodule
    } else if w == "do"@ {
        TokenType::Do
    } else if w == "@doc"@ {
        TokenType::Doc
    } else if w == "else"@ {
        TokenType::Else
    } else if w == "elseif"@ {
        TokenType::ElseIf
    } else if w == "end"@ {
        TokenType::End
    } else if w == "false"@ {
        TokenType::False
    } else if w == "for"@ {
        TokenType::For
    } else if w == "if"@ {
        TokenType::If
    } else if w == "import"@ {
        TokenType::Import
    } else if w == "in"@ {
        TokenType::In
    } else if w == "@moduledoc"@ {
        TokenType::ModuleDoc
    } else if w == "nil"@ {
        TokenType::Nil
    } else if w == "not"@ {
        TokenType::Not
    } else if w == "or"@ {
        TokenType::Or
    } else if w == "require"@ {
        TokenType::Require
    } else if w == "@spec"@ {
        TokenType::Spec
    } else if w == "then"@ {
        TokenType::Then
    } else if w == "true"@ {
        TokenType::True
    } else if w == "type"@ {
        TokenType::Type
    } else if w == "unless"@ {
        TokenType::Unless
    } else if w == "use"@ {
        TokenType::Use
    } else {
        TokenType::Identifier
    }
}

/// Whether `text[lo..hi]` spells `word`.
fn same_text(text: &Vec<char>, lo: usize, hi: usize, word: &str) -> (r: bool)
    requires
        lo <= hi <= text@.len(),
    ensures
        r == (text@.subrange(lo as int, hi as int) == word@),
{
    let n = word.unicode_len();
    if hi - lo != n {
        return false;
    }
    let mut i: usize = 0;
    while i < n
        invariant
            lo <= hi <= text@.len(),
            hi - lo == n == word@.len(),
            i <= n,
            forall|j: int| 0 <= j < i ==> text@[lo + j] == word@[j],
        decreases n - i,
    {
        if text[lo + i] != word.get_char(i) {
            assert(text@.subrange(lo as int, hi as int)[i as int] != word@[i as int]);
            return false;
        }
        i = i + 1;
    }
    assert(text@.subrange(lo as int, hi as int) =~= word@);
    true
}

/// Looks `text[lo..hi]` up in the table of reserved words.
pub fn keyword_kind_of(text: &Vec<char>, lo: usize, hi: usize) -> (r: TokenType)
    requires
        lo <= hi <= text@.len(),
    ensures
        r == keyword_kind(text@.subrange(lo as int, hi as int)),
{
    if same_text(text, lo, hi, "alias") {
        TokenType::Alias
    } else if same_text(text, lo, hi, "and") {
        TokenType::And
    } else if same_text(text, lo, hi, "break") {
        TokenType::Break
    } else if same_text(text, lo, hi, "cond") {
        TokenType::Cond
    } else if same_text(text, lo, hi, "def") {
        TokenType::Def
    } else if same_text(text, lo, hi, "defmacro") {
        TokenType::Defmacro
    } else if same_text(text, lo, hi, "defmodule") {
        TokenType::Defmodule
    } else if same_text(text, lo, hi, "do") {
        TokenType::Do
    } else if same_text(text, lo, hi, "@doc") {
        TokenType::Doc
    } else if same_text(text, lo, hi, "else") {
        TokenType::Else
    } else if same_text(text, lo, hi, "elseif") {
        TokenType::ElseIf
    } else if same_text(text, lo, hi, "end") {
        TokenType::End
    } else if same_text(text, lo, hi, "false") {
        TokenType::False
    } else if same_text(text, lo, hi, "for") {
        TokenType::For
    } else if same_text(text, lo, hi, "if") {
        TokenType::If
    } else if same_text(text, lo, hi, "import") {
        TokenType::Import
    } else if same_text(text, lo, hi, "in") {
        TokenType::In
    } else if same_text(text, lo, hi, "@moduledoc") {
        TokenType::ModuleDoc
    } else if same_text(text, lo, hi, "nil") {
        TokenType::Nil
    } else if same_text(text, lo, hi, "not") {
        TokenType::Not
    } else if same_text(text, lo, hi, "or") {
        TokenType::Or
    } else if same_text(text, lo, hi, "require") {
        TokenType::Require
    } else if same_text(text, lo, hi, "@spec") {
        TokenType::Spec
    } else if same_text(text, lo, hi, "then") {
        TokenType::Then
    } else if same_text(text, lo, hi, "true") {
        TokenType::True
    } else if same_text(text, lo, hi, "type") {
        TokenType::Type
    } else if same_text(text, lo, hi, "unless") {
        TokenType::Unless
    } else if same_text(text, lo, hi, "use") {
        TokenType::Use
    } else {
        TokenType::Identifier
    }
}

} // verus!
