//! Character classes that decide where a token begins and ends.
use vstd::prelude::*;

verus! {

/// What `char::is_alphanumeric` answers for a character (Unicode `Alphabetic`
/// or `Numeric`).
pub uninterp spec fn unicode_alphanumeric(c: char) -> bool;

/// What `char::is_whitespace` answers for a character (Unicode `White_Space`).
pub uninterp spec fn unicode_whitespace(c: char) -> bool;

/// What `char::is_numeric` answers for a character (Unicode general categories
/// `Nd`, `Nl` and `No`).
pub uninterp spec fn unicode_numeric(c: char) -> bool;

/// Relies on `char::is_alphanumeric`, whose answer depends on the character alone.
#[verifier::external_body]
pub(crate) fn alphanumeric(c: char) -> (r: bool)
    ensures
        r == unicode_alphanumeric(c),
{
    c.is_alphanumeric()
}

/// Relies on `char::is_whitespace`, whose answer depends on the character alone.
#[verifier::external_body]
pub(crate) fn whitespace(c: char) -> (r: bool)
    ensures
        r == unicode_whitespace(c),
{
    c.is_whitespace()
}

/// Relies on `char::is_numeric`, whose answer depends on the character alone.
#[verifier::external_body]
pub(crate) fn numeric(c: char) -> (r: bool)
    ensures
        r == unicode_numeric(c),
{
    c.is_numeric()
}

/// ASCII punctuation: `!"#$%&'()*+,-./`, `:;<=>?@`, `[\]^_`` ` `` and `{|}~`.
pub open spec fn ascii_punctuation(c: char) -> bool {
    ('!' <= c && c <= '/') || (':' <= c && c <= '@') || ('[' <= c && c <= '`') || ('{' <= c
        && c <= '~')
}

/// ASCII letters and digits.
pub open spec fn ascii_alphanumeric(c: char) -> bool {
    ('0' <= c && c <= '9') || ('A' <= c && c <= 'Z') || ('a' <= c && c <= 'z')
}

/// Line terminators; tab and carriage return count as one too.
pub open spec fn newline_char(c: char) -> bool {
    c == '\n' || c == '\t' || c == '\r'
}

/// Characters that open or close a quoted text.
pub open spec fn quote_char(c: char) -> bool {
    c == '"' || c == '\''
}

/// Characters read as single-character delimiter tokens.
pub open spec fn delimiter_char(c: char) -> bool {
    c == '[' || c == ']' || c == '(' || c == ')' || c == '{' || c == '}' || c == '%'
}

/// Punctuation that may stand inside identifiers and atoms.
pub open spec fn extra_literal_char(c: char) -> bool {
    c == '_' || c == '@' || c == '?' || c == '!' || c == '{' || c == '%' || c == '}' || c == '.'
}

/// Characters that make up operators: ASCII punctuation but for
/// `` ` ``, `_`, `@`, `,`, `;` and `#`.
pub open spec fn operator_char(c: char) -> bool {
    (ascii_punctuation(c) && c != '`' && c != '_' && c != '@' && c != ',' && c != ';' && c != '#')
        || c == ':'
}

/// Characters of a numeric literal: ASCII letters, digits and `.`.
pub open spec fn number_char(c: char) -> bool {
    ascii_alphanumeric(c) || c == '.'
}

/// Characters of a character literal: `?` and alphanumerics.
pub open spec fn char_body_char(c: char) -> bool {
    c == '?' || unicode_alphanumeric(c)
}

/// Characters of an atom's name before any quote: `:`, alphanumerics and the
/// punctuation `_ @ ? ! { % } .`.
pub open spec fn atom_name_char(c: char) -> bool {
    c == ':' || extra_literal_char(c) || unicode_alphanumeric(c)
}

/// Characters of an atom once a `"` has been read in it: those of a name, `"`
/// and whitespace. Quotes are not matched: whitespace stays accepted after a
/// closing quote too.
pub open spec fn atom_char(c: char) -> bool {
    c == ':' || c == '"' || extra_literal_char(c) || unicode_alphanumeric(c) || unicode_whitespace(
        c,
    )
}

/// Characters of an identifier: anything but whitespace and the ASCII
/// punctuation outside `_ @ ? ! { % } .`.
pub open spec fn identifier_char(c: char) -> bool {
    ((unicode_alphanumeric(c) || extra_literal_char(c)) || !ascii_punctuation(c))
        && !unicode_whitespace(c)
}

pub fn is_ascii_punctuation(c: char) -> (r: bool)
    ensures
        r == ascii_punctuation(c),
{
    ('!' <= c && c <= '/') || (':' <= c && c <= '@') || ('[' <= c && c <= '`') || ('{' <= c
        && c <= '~')
}

pub fn is_ascii_alphanumeric(c: char) -> (r: bool)
    ensures
        r == ascii_alphanumeric(c),
{
    ('0' <= c && c <= '9') || ('A' <= c && c <= 'Z') || ('a' <= c && c <= 'z')
}

pub fn is_newline(c: char) -> (r: bool)
    ensures
        r == newline_char(c),
{
    c == '\n' || c == '\t' || c == '\r'
}

pub fn is_quote(c: char) -> (r: bool)
    ensures
        r == quote_char(c),
{
    c == '"' || c == '\''
}

pub fn is_delim(c: char) -> (r: bool)
    ensures
        r == delimiter_char(c),
{
    c == '[' || c == ']' || c == '(' || c == ')' || c == '{' || c == '}' || c == '%'
}

pub fn is_extra_literal(c: char) -> (r: bool)
    ensures
        r == extra_literal_char(c),
{
    c == '_' || c == '@' || c == '?' || c == '!' || c == '{' || c == '%' || c == '}' || c == '.'
}

pub fn is_operator(c: char) -> (r: bool)
    ensures
        r == operator_char(c),
{
    (is_ascii_punctuation(c) && c != '`' && c != '_' && c != '@' && c != ',' && c != ';' && c
        != '#') || c == ':'
}

pub fn is_number(c: char) -> (r: bool)
    ensures
        r == number_char(c),
{
    is_ascii_alphanumeric(c) || c == '.'
}

pub fn is_char(c: char) -> (r: bool)
    ensures
        r == char_body_char(c),
{
    c == '?' || alphanumeric(c)
}

pub fn is_atom_name(c: char) -> (r: bool)
    ensures
        r == atom_name_char(c),
{
    c == ':' || is_extra_literal(c) || alphanumeric(c)
}

pub fn is_atom(c: char) -> (r: bool)
    ensures
        r == atom_char(c),
{
    c == ':' || c == '"' || is_extra_literal(c) || alphanumeric(c) || whitespace(c)
}

pub fn is_identifier(c: char) -> (r: bool)
    ensures
        r == identifier_char(c),
{
    ((alphanumeric(c) || is_extra_literal(c)) || !is_ascii_punctuation(c)) && !whitespace(c)
}


/// A class of characters that a run of one token is made of.
#[derive(Debug, Clone, Copy, PartialEq, Eq, Structural)]
pub enum CharClass {
    /// Anything up to a line terminator: the body of a comment.
    NotNewline,
    /// Whitespace but for line terminators, which are tokens of their own.
    Whitespace,
    Identifier,
    Number,
    Operator,
    CharBody,
    /// An atom's name up to its first quote.
    AtomName,
    /// An atom from its first quote on.
    AtomBody,
}

impl CharClass {
    pub open spec fn holds(self, c: char) -> bool {
        match self {
            CharClass::NotNewline => !newline_char(c),
            CharClass::Whitespace => unicode_whitespace(c) && !newline_char(c),
            CharClass::Identifier => identifier_char(c),
            CharClass::Number => number_char(c),
            CharClass::Operator => operator_char(c),
            CharClass::CharBody => char_body_char(c),
            CharClass::AtomName => atom_name_char(c),
            CharClass::AtomBody => atom_char(c),
        }
    }

    pub fn matches(&self, c: char) -> (r: bool)
        ensures
            r == self.holds(c),
    {
        match self {
            CharClass::NotNewline => !is_newline(c),
            CharClass::Whitespace => whitespace(c) && !is_newline(c),
            CharClass::Identifier => is_identifier(c),
            CharClass::Number => is_number(c),
            CharClass::Operator => is_operator(c),
            CharClass::CharBody => is_char(c),
            CharClass::AtomName => is_atom_name(c),
            CharClass::AtomBody => is_atom(c),
        }
    }
}

} // verus!
