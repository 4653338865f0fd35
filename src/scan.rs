//! The scanner as mathematics: which token the input yields at a position,
//! and the whole sequence of tokens that scanning from a position produces.
use vstd::prelude::*;
use crate::chars::{
    delimiter_char, identifier_char, newline_char, operator_char, quote_char, unicode_alphanumeric,
    unicode_numeric, unicode_whitespace, CharClass,
};
use crate::token::{keyword_kind, Token, TokenType};

verus! {

/// The end of the longest run of `cls` characters that starts at `pos`.
pub open spec fn run_end(s: Seq<char>, pos: int, cls: CharClass) -> int
    decreases s.len() - pos,
{
    if 0 <= pos < s.len() && cls.holds(s[pos]) {
        run_end(s, pos + 1, cls)
    } else {
        pos
    }
}

/// A token of kind `kind` over the run of `cls` characters at `pos`, if that
/// run is not empty.
pub open spec fn run_token(s: Seq<char>, pos: int, cls: CharClass, kind: TokenType) -> Option<
    (TokenType, int),
> {
    let e = run_end(s, pos, cls);
    if e > pos {
        Some((kind, e))
    } else {
        None
    }
}

/// The kind of the delimiter token for a delimiter character.
pub open spec fn delimiter_kind(c: char) -> TokenType {
    if c == '(' {
        TokenType::LeftParen
    } else if c == ')' {
        TokenType::RightParen
    } else if c == '[' {
        TokenType::LeftBracket
    } else if c == ']' {
        TokenType::RightBracket
    } else if c == '{' {
        TokenType::LeftBrace
    } else if c == '}' {
        TokenType::RightBrace
    } else {
        TokenType::Percent
    }
}

/// The end of an atom that starts at `pos`: its name, and when a `"` follows
/// the name, everything from there that may stand in a quoted atom.
pub open spec fn atom_end(s: Seq<char>, pos: int) -> int {
    let name_end = run_end(s, pos, CharClass::AtomName);
    if name_end < s.len() && s[name_end] == '"' {
        run_end(s, name_end, CharClass::AtomBody)
    } else {
        name_end
    }
}

/// Whether a `:` at `pos` opens an atom: the next character is alphanumeric
/// or a quote.
pub open spec fn opens_atom(s: Seq<char>, pos: int) -> bool {
    0 <= pos + 1 < s.len() && (unicode_alphanumeric(s[pos + 1]) || quote_char(s[pos + 1]))
}

/// The token that starts at `pos`: its kind and the position just after it.
/// `None` at the end of the input and at a character that starts no token.
pub open spec fn step(s: Seq<char>, pos: int) -> Option<(TokenType, int)> {
    if !(0 <= pos < s.len()) {
        None
    } else {
        let c = s[pos];
        if c == '#' {
            run_token(s, pos, CharClass::NotNewline, TokenType::Comment)
        } else if c == ',' {
            Some((TokenType::Comma, pos + 1))
        } else if c == ':' {
            if opens_atom(s, pos) {
                if atom_end(s, pos) > pos {
                    Some((TokenType::Atom, atom_end(s, pos)))
                } else {
                    None
                }
            } else {
                run_token(s, pos, CharClass::Operator, TokenType::Operator)
            }
        } else if c == '?' {
            run_token(s, pos, CharClass::CharBody, TokenType::Char)
        } else if newline_char(c) {
            Some((TokenType::NewLine, pos + 1))
        } else if quote_char(c) {
            Some((TokenType::Quote, pos + 1))
        } else if delimiter_char(c) {
            Some((delimiter_kind(c), pos + 1))
        } else if operator_char(c) {
            run_token(s, pos, CharClass::Operator, TokenType::Operator)
        } else if unicode_numeric(c) {
            run_token(s, pos, CharClass::Number, TokenType::Number)
        } else if identifier_char(c) {
            let e = run_end(s, pos, CharClass::Identifier);
            if e > pos {
                Some((keyword_kind(s.subrange(pos, e)), e))
            } else {
                None
            }
        } else if unicode_whitespace(c) {
            run_token(s, pos, CharClass::Whitespace, TokenType::WhiteSpace)
        } else {
            None
        }
    }
}

/// The tokens, as kind and text, that scanning `s` from `pos` produces until
/// `step` yields nothing.
pub open spec fn scan_from(s: Seq<char>, pos: int) -> Seq<(TokenType, Seq<char>)>
    decreases s.len() - pos,
{
    match step(s, pos) {
        Some((kind, e)) => if pos < e <= s.len() {
            seq![(kind, s.subrange(pos, e))] + scan_from(s, e)
        } else {
            Seq::empty()
        },
        None => Seq::empty(),
    }
}

/// The position at which scanning `s` from `pos` stops.
pub open spec fn scan_stop(s: Seq<char>, pos: int) -> int
    decreases s.len() - pos,
{
    match step(s, pos) {
        Some((kind, e)) => if pos < e <= s.len() {
            scan_stop(s, e)
        } else {
            pos
        },
        None => pos,
    }
}

/// The tokens of a sequence, as kind and text.
pub open spec fn token_views(ts: Seq<Token>) -> Seq<(TokenType, Seq<char>)> {
    ts.map_values(|t: Token| t@)
}

/// `r` and `new_pos` are what reading `expected` at `pos` gives: the token and
/// the position after it, or nothing and the position unchanged.
pub open spec fn yields(
    s: Seq<char>,
    pos: int,
    r: Option<Token>,
    new_pos: int,
    expected: Option<(TokenType, int)>,
) -> bool {
    match expected {
        Some((kind, e)) => r is Some && r->0@ == (kind, s.subrange(pos, e)) && new_pos == e,
        None => r is None && new_pos == pos,
    }
}

pub proof fn lemma_run_end_bounds(s: Seq<char>, pos: int, cls: CharClass)
    requires
        0 <= pos <= s.len(),
    ensures
        pos <= run_end(s, pos, cls) <= s.len(),
        forall|i: int| pos <= i < run_end(s, pos, cls) ==> cls.holds(#[trigger] s[i]),
        run_end(s, pos, cls) < s.len() ==> !cls.holds(s[run_end(s, pos, cls)]),
    decreases s.len() - pos,
{
    if pos < s.len() && cls.holds(s[pos]) {
        lemma_run_end_bounds(s, pos + 1, cls);
    }
}

/// A token that `step` yields is never empty and never runs past the input.
pub proof fn lemma_step_progress(s: Seq<char>, pos: int)
    requires
        0 <= pos <= s.len(),
    ensures
        match step(s, pos) {
            Some((_, e)) => pos < e <= s.len(),
            None => true,
        },
{
    if pos < s.len() {
        lemma_run_end_bounds(s, pos, CharClass::NotNewline);
        lemma_run_end_bounds(s, pos, CharClass::AtomName);
        lemma_run_end_bounds(s, run_end(s, pos, CharClass::AtomName), CharClass::AtomBody);
        lemma_run_end_bounds(s, pos, CharClass::Operator);
        lemma_run_end_bounds(s, pos, CharClass::CharBody);
        lemma_run_end_bounds(s, pos, CharClass::Number);
        lemma_run_end_bounds(s, pos, CharClass::Identifier);
        lemma_run_end_bounds(s, pos, CharClass::Whitespace);
    }
}

} // verus!
