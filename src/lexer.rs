//! The scanner: a cursor over the input's characters and the rule that picks
//! how the next token is read.
use vstd::prelude::*;
use crate::chars::{
    alphanumeric, delimiter_char, is_delim, is_identifier, is_newline, is_operator, is_quote,
    numeric, whitespace, CharClass,
};
use crate::scan::{
    atom_end, delimiter_kind, lemma_run_end_bounds, lemma_step_progress, opens_atom, run_end, run_token, scan_from, step,
    token_views, yields,
};
use crate::token::{keyword_kind, keyword_kind_of, Token, TokenType};

verus! {

/// Relies on `String::push`: appends the character at the end of the string.
#[verifier::external_body]
fn push_char(s: &mut String, c: char)
    ensures
        final(s)@ == old(s)@.push(c),
{
    s.push(c)
}

/// A scanner over one input, with a read position that only moves forward.
pub struct Lexer {
    cursor: usize,
    input: Vec<char>,
}

impl Lexer {
    /// The characters of the input.
    pub closed spec fn text(&self) -> Seq<char> {
        self.input@
    }

    /// The read position: the number of characters read so far.
    pub closed spec fn pos(&self) -> int {
        self.cursor as int
    }

    /// The read position never passes the end of the input.
    pub closed spec fn wf(&self) -> bool {
        self.cursor <= self.input@.len()
    }

    /// A well-formed scanner's read position lies between the start and the
    /// end of its input.
    pub proof fn lemma_pos_in_bounds(&self)
        requires
            self.wf(),
        ensures
            0 <= self.pos() <= self.text().len(),
    {
    }

    pub fn new(string: &str) -> (r: Lexer)
        ensures
            r.wf(),
            r.text() == string@,
            r.pos() == 0,
    {
        let mut input: Vec<char> = Vec::new();
        for c in it: string.chars()
            invariant
                input@ == it.seq().take(it.index() as int),
        {
            input.push(c);
        }
        Lexer { cursor: 0, input }
    }

    /// Reads the character at the read position and moves past it; nothing at
    /// the end of the input.
    pub fn read_char(&mut self) -> (r: Option<&char>)
        requires
            old(self).wf(),
        ensures
            final(self).wf(),
            final(self).text() == old(self).text(),
            old(self).pos() < old(self).text().len() ==> r == Some(&old(self).text()[old(self).pos()])
                && final(self).pos() == old(self).pos() + 1,
            old(self).pos() >= old(self).text().len() ==> r is None && final(self).pos()
                == old(self).pos(),
    {
        if self.cursor < self.input.len() {
            let i = self.cursor;
            self.cursor = self.cursor + 1;
            return Some(&self.input[i]);
        }
        None
    }

    /// Reads the longest run of `cls` characters at the read position onto
    /// the end of `buf`.
    fn read_run(&mut self, cls: CharClass, buf: &mut String)
        requires
            old(self).wf(),
        ensures
            final(self).wf(),
            final(self).text() == old(self).text(),
            final(self).pos() == run_end(old(self).text(), old(self).pos(), cls),
            final(self).pos() >= old(self).pos(),
            final(buf)@ == old(buf)@ + old(self).text().subrange(old(self).pos(), final(self).pos()),
    {
        let start = self.cursor;
        while self.cursor < self.input.len()
            invariant
                self.wf(),
                self.text() == old(self).text(),
                start == old(self).pos() <= self.pos(),
                buf@ == old(buf)@ + self.text().subrange(start as int, self.pos()),
                run_end(self.text(), start as int, cls) == run_end(self.text(), self.pos(), cls),
            ensures
                run_end(self.text(), start as int, cls) == self.pos(),
            decreases self.text().len() - self.pos(),
        {
            let next = self.input[self.cursor];
            if !cls.matches(next) {
                break;
            }
            push_char(buf, next);
            self.cursor = self.cursor + 1;
            assert(buf@ =~= old(buf)@ + self.text().subrange(start as int, self.pos()));
        }
        assert(self.text().subrange(start as int, start as int) =~= Seq::<char>::empty());
    }

    /// Reads the longest run of `cls` characters at the read position; nothing
    /// when that run is empty.
    fn read_while(&mut self, cls: CharClass) -> (r: Option<String>)
        requires
            old(self).wf(),
        ensures
            final(self).wf(),
            final(self).text() == old(self).text(),
            final(self).pos() == run_end(old(self).text(), old(self).pos(), cls),
            final(self).pos() >= old(self).pos(),
            r is Some <==> final(self).pos() > old(self).pos(),
            r is Some ==> r->0@ == old(self).text().subrange(old(self).pos(), final(self).pos()),
    {
        let start = self.cursor;
        let mut string = String::new();
        self.read_run(cls, &mut string);
        assert(string@ =~= old(self).text().subrange(start as int, self.pos()));
        if self.cursor == start {
            None
        } else {
            Some(string)
        }
    }

    /// The character at the read position, if any.
    pub fn peek(&self) -> (r: Option<&char>)
        ensures
            self.pos() < self.text().len() ==> r == Some(&self.text()[self.pos()]),
            self.pos() >= self.text().len() ==> r is None,
    {
        if self.cursor < self.input.len() {
            Some(&self.input[self.cursor])
        } else {
            None
        }
    }

    /// The character `n` places after the read position, if any.
    pub fn peek_ahead(&self, n: usize) -> (r: Option<&char>)
        ensures
            self.pos() + n < self.text().len() ==> r == Some(&self.text()[self.pos() + n]),
            self.pos() + n >= self.text().len() ==> r is None,
    {
        if self.cursor < self.input.len() && n < self.input.len() - self.cursor {
            Some(&self.input[self.cursor + n])
        } else {
            None
        }
    }

    /// Whether the read position has reached the end of the input.
    pub fn is_done(&self) -> (r: bool)
        ensures
            r == (self.pos() >= self.text().len()),
    {
        self.cursor >= self.input.len()
    }

    /// Reads the next token, choosing how to read it from the character at
    /// the read position. Nothing at the end of the input, and nothing at a
    /// character that starts no token (the read position then stays put).
    pub fn next(&mut self) -> (r: Option<Token>)
        requires
            old(self).wf(),
        ensures
            final(self).wf(),
            final(self).text() == old(self).text(),
            yields(old(self).text(), old(self).pos(), r, final(self).pos(), step(old(self).text(), old(self).pos())),
    {
        let peek = match self.peek() {
            Some(c) => *c,
            None => return None,
        };
        match peek {
            '#' => read_comment(self),
            ',' => read_comma(self),
            ':' => read_atom(self),
            '?' => read_char(self),
            ch if is_newline(ch) => read_with(self, TokenType::NewLine),
            ch if is_quote(ch) => read_with(self, TokenType::Quote),
            ch if is_delim(ch) => read_delimiter(self),
            ch if is_operator(ch) => read_operator(self),
            ch if numeric(ch) => read_number(self),
            ch if is_identifier(ch) => read_identifier(self),
            ch if whitespace(ch) => read_whitespace(self),
            _ => None,
        }
    }
}

/// Reads a run of whitespace.
fn read_whitespace(lexer: &mut Lexer) -> (r: Option<Token>)
    requires
        old(lexer).wf(),
    ensures
        final(lexer).wf(),
        final(lexer).text() == old(lexer).text(),
        yields(
            old(lexer).text(),
            old(lexer).pos(),
            r,
            final(lexer).pos(),
            run_token(old(lexer).text(), old(lexer).pos(), CharClass::Whitespace, TokenType::WhiteSpace),
        ),
{
    match lexer.read_while(CharClass::Whitespace) {
        Some(value) => Some(Token::new(TokenType::WhiteSpace, value)),
        None => None,
    }
}

/// Reads a numeric literal: a run of ASCII letters, digits and dots.
fn read_number(lexer: &mut Lexer) -> (r: Option<Token>)
    requires
        old(lexer).wf(),
    ensures
        final(lexer).wf(),
        final(lexer).text() == old(lexer).text(),
        yields(
            old(lexer).text(),
            old(lexer).pos(),
            r,
            final(lexer).pos(),
            run_token(old(lexer).text(), old(lexer).pos(), CharClass::Number, TokenType::Number),
        ),
{
    match lexer.read_while(CharClass::Number) {
        Some(value) => Some(Token::new(TokenType::Number, value)),
        None => None,
    }
}

/// Reads an operator: the longest run of operator characters.
fn read_operator(lexer: &mut Lexer) -> (r: Option<Token>)
    requires
        old(lexer).wf(),
    ensures
        final(lexer).wf(),
        final(lexer).text() == old(lexer).text(),
        yields(
            old(lexer).text(),
            old(lexer).pos(),
            r,
            final(lexer).pos(),
            run_token(old(lexer).text(), old(lexer).pos(), CharClass::Operator, TokenType::Operator),
        ),
{
    match lexer.read_while(CharClass::Operator) {
        Some(value) => Some(Token::new(TokenType::Operator, value)),
        None => None,
    }
}

/// Reads a character literal such as `?a`.
fn read_char(lexer: &mut Lexer) -> (r: Option<Token>)
    requires
        old(lexer).wf(),
    ensures
        final(lexer).wf(),
        final(lexer).text() == old(lexer).text(),
        yields(
            old(lexer).text(),
            old(lexer).pos(),
            r,
            final(lexer).pos(),
            run_token(old(lexer).text(), old(lexer).pos(), CharClass::CharBody, TokenType::Char),
        ),
{
    match lexer.read_while(CharClass::CharBody) {
        Some(value) => Some(Token::new(TokenType::Char, value)),
        None => None,
    }
}

/// Reads a comment: everything up to the next line terminator.
fn read_comment(lexer: &mut Lexer) -> (r: Option<Token>)
    requires
        old(lexer).wf(),
    ensures
        final(lexer).wf(),
        final(lexer).text() == old(lexer).text(),
        yields(
            old(lexer).text(),
            old(lexer).pos(),
            r,
            final(lexer).pos(),
            run_token(old(lexer).text(), old(lexer).pos(), CharClass::NotNewline, TokenType::Comment),
        ),
{
    match lexer.read_while(CharClass::NotNewline) {
        Some(value) => Some(Token::new(TokenType::Comment, value)),
        None => None,
    }
}

/// Reads one character as a token of kind `tok`.
fn read_with(lexer: &mut Lexer, tok: TokenType) -> (r: Option<Token>)
    requires
        old(lexer).wf(),
    ensures
        final(lexer).wf(),
        final(lexer).text() == old(lexer).text(),
        yields(
            old(lexer).text(),
            old(lexer).pos(),
            r,
            final(lexer).pos(),
            if old(lexer).pos() < old(lexer).text().len() {
                Some((tok, old(lexer).pos() + 1))
            } else {
                None
            },
        ),
{
    let c = match lexer.read_char() {
        Some(c) => *c,
        None => return None,
    };
    let mut value = String::new();
    push_char(&mut value, c);
    assert(value@ =~= old(lexer).text().subrange(old(lexer).pos(), old(lexer).pos() + 1));
    Some(Token::new(tok, value))
}

/// Reads a comma.
fn read_comma(lexer: &mut Lexer) -> (r: Option<Token>)
    requires
        old(lexer).wf(),
    ensures
        final(lexer).wf(),
        final(lexer).text() == old(lexer).text(),
        yields(
            old(lexer).text(),
            old(lexer).pos(),
            r,
            final(lexer).pos(),
            if old(lexer).pos() < old(lexer).text().len() {
                Some((TokenType::Comma, old(lexer).pos() + 1))
            } else {
                None
            },
        ),
{
    let c = match lexer.read_char() {
        Some(c) => *c,
        None => return None,
    };
    let mut value = String::new();
    push_char(&mut value, c);
    assert(value@ =~= old(lexer).text().subrange(old(lexer).pos(), old(lexer).pos() + 1));
    Some(Token::new(TokenType::Comma, value))
}

/// The delimiter kind of a delimiter character.
fn delimiter_kind_of(c: char) -> (r: TokenType)
    requires
        delimiter_char(c),
    ensures
        r == delimiter_kind(c),
{
    match c {
        '(' => TokenType::LeftParen,
        ')' => TokenType::RightParen,
        '[' => TokenType::LeftBracket,
        ']' => TokenType::RightBracket,
        '{' => TokenType::LeftBrace,
        '}' => TokenType::RightBrace,
        _ => TokenType::Percent,
    }
}

/// Reads one delimiter character.
fn read_delimiter(lexer: &mut Lexer) -> (r: Option<Token>)
    requires
        old(lexer).wf(),
        old(lexer).pos() < old(lexer).text().len(),
        delimiter_char(old(lexer).text()[old(lexer).pos()]),
    ensures
        final(lexer).wf(),
        final(lexer).text() == old(lexer).text(),
        yields(
            old(lexer).text(),
            old(lexer).pos(),
            r,
            final(lexer).pos(),
            Some((delimiter_kind(old(lexer).text()[old(lexer).pos()]), old(lexer).pos() + 1)),
        ),
{
    let c = match lexer.read_char() {
        Some(c) => *c,
        None => return None,
    };
    let ty = delimiter_kind_of(c);
    let mut value = String::new();
    push_char(&mut value, c);
    assert(value@ =~= old(lexer).text().subrange(old(lexer).pos(), old(lexer).pos() + 1));
    Some(Token::new(ty, value))
}

/// Reads an identifier, tagged with its reserved word's kind if it is one.
fn read_identifier(lexer: &mut Lexer) -> (r: Option<Token>)
    requires
        old(lexer).wf(),
    ensures
        final(lexer).wf(),
        final(lexer).text() == old(lexer).text(),
        ({
            let s = old(lexer).text();
            let pos = old(lexer).pos();
            let e = run_end(s, pos, CharClass::Identifier);
            yields(
                s,
                pos,
                r,
                final(lexer).pos(),
                if e > pos {
                    Some((keyword_kind(s.subrange(pos, e)), e))
                } else {
                    None
                },
            )
        }),
{
    let start = lexer.cursor;
    match lexer.read_while(CharClass::Identifier) {
        Some(ident) => {
            let ty = keyword_kind_of(&lexer.input, start, lexer.cursor);
            Some(Token::new(ty, ident))
        },
        None => None,
    }
}

/// Reads an atom when the `:` at the read position is followed by an
/// alphanumeric character or a quote, and an operator otherwise.
fn read_atom(lexer: &mut Lexer) -> (r: Option<Token>)
    requires
        old(lexer).wf(),
    ensures
        final(lexer).wf(),
        final(lexer).text() == old(lexer).text(),
        yields(
            old(lexer).text(),
            old(lexer).pos(),
            r,
            final(lexer).pos(),
            if opens_atom(old(lexer).text(), old(lexer).pos()) {
                if atom_end(old(lexer).text(), old(lexer).pos()) > old(lexer).pos() {
                    Some((TokenType::Atom, atom_end(old(lexer).text(), old(lexer).pos())))
                } else {
                    None
                }
            } else {
                run_token(
                    old(lexer).text(),
                    old(lexer).pos(),
                    CharClass::Operator,
                    TokenType::Operator,
                )
            },
        ),
{
    if let Some(next) = lexer.peek_ahead(1) {
        if alphanumeric(*next) || is_quote(*next) {
            let start = lexer.cursor;
            let mut value = String::new();
            lexer.read_run(CharClass::AtomName, &mut value);
            if lexer.cursor < lexer.input.len() && lexer.input[lexer.cursor] == '"' {
                lexer.read_run(CharClass::AtomBody, &mut value);
            }
            if lexer.cursor == start {
                return None;
            }
            proof {
                lemma_run_end_bounds(old(lexer).text(), start as int, CharClass::AtomName);
            }
            assert(value@ =~= old(lexer).text().subrange(start as int, lexer.pos()));
            return Some(Token::new(TokenType::Atom, value));
        }
    }
    read_operator(lexer)
}

/// Scans the whole input: the tokens that `Lexer::next` yields one after the
/// other, up to the end of the input or the first character that starts no
/// token.
pub fn tokenize(input: &str) -> (r: Vec<Token>)
    ensures
        token_views(r@) == scan_from(input@, 0),
{
    let mut lexer = Lexer::new(input);
    let mut tokens: Vec<Token> = Vec::new();
    loop
        invariant
            lexer.wf(),
            lexer.text() == input@,
            token_views(tokens@) + scan_from(input@, lexer.pos()) == scan_from(input@, 0),
        ensures
            token_views(tokens@) == scan_from(input@, 0),
        decreases input@.len() - lexer.pos(),
    {
        let ghost pos = lexer.pos();
        proof {
            lemma_step_progress(input@, pos);
        }
        match lexer.next() {
            Some(t) => {
                let ghost prev = tokens@;
                tokens.push(t);
                assert(token_views(tokens@) =~= token_views(prev) + seq![t@]);
                assert(scan_from(input@, pos) =~= seq![t@] + scan_from(input@, lexer.pos()));
            },
            None => {
                assert(token_views(tokens@) =~= scan_from(input@, 0));
                break;
            },
        }
    }
    tokens
}

} // verus!
