//! Properties of the scanner as a whole, proved over the model in `scan`.
use vstd::prelude::*;
use crate::chars::{
    delimiter_char, identifier_char, newline_char, number_char, operator_char, quote_char,
    unicode_numeric, unicode_whitespace, CharClass,
};
use crate::scan::{
    lemma_run_end_bounds, lemma_step_progress, run_end, scan_from, scan_stop, step, token_views,
};
use crate::token::{Token, TokenType};

verus! {

/// Characters that start a token wherever they stand. A digit that is not
/// ASCII is the one case of a character that is classified yet starts none.
pub open spec fn starts_token(c: char) -> bool {
    c == '#' || c == ',' || c == ':' || c == '?' || newline_char(c) || quote_char(c)
        || delimiter_char(c) || operator_char(c) || if unicode_numeric(c) {
        number_char(c)
    } else {
        identifier_char(c) || unicode_whitespace(c)
    }
}

/// Parens, brackets and braces.
pub open spec fn bracket_char(c: char) -> bool {
    c == '(' || c == ')' || c == '[' || c == ']' || c == '{' || c == '}'
}

/// The texts of a sequence of tokens, one after the other.
pub open spec fn joined(ts: Seq<(TokenType, Seq<char>)>) -> Seq<char>
    decreases ts.len(),
{
    if ts.len() == 0 {
        Seq::empty()
    } else {
        let (kind, text) = ts[0];
        text + joined(ts.drop_first())
    }
}

proof fn lemma_run_nonempty(s: Seq<char>, pos: int, cls: CharClass)
    requires
        0 <= pos < s.len(),
        cls.holds(s[pos]),
    ensures
        run_end(s, pos, cls) > pos,
{
    lemma_run_end_bounds(s, pos + 1, cls);
}

/// At a character that starts a token, `step` yields one.
proof fn lemma_step_at_token_start(s: Seq<char>, pos: int)
    requires
        0 <= pos < s.len(),
        starts_token(s[pos]),
    ensures
        step(s, pos) is Some,
{
    let c = s[pos];
    if c == '#' {
        lemma_run_nonempty(s, pos, CharClass::NotNewline);
    } else if c == ':' {
        lemma_run_nonempty(s, pos, CharClass::AtomName);
        lemma_run_end_bounds(s, pos, CharClass::AtomName);
        lemma_run_end_bounds(s, run_end(s, pos, CharClass::AtomName), CharClass::AtomBody);
        lemma_run_nonempty(s, pos, CharClass::Operator);
    } else if c == '?' {
        lemma_run_nonempty(s, pos, CharClass::CharBody);
    } else if c == ',' || newline_char(c) || quote_char(c) || delimiter_char(c) {
    } else if operator_char(c) {
        lemma_run_nonempty(s, pos, CharClass::Operator);
    } else if unicode_numeric(c) {
        if number_char(c) {
            lemma_run_nonempty(s, pos, CharClass::Number);
        }
    } else if identifier_char(c) {
        lemma_run_nonempty(s, pos, CharClass::Identifier);
    } else if unicode_whitespace(c) {
        lemma_run_nonempty(s, pos, CharClass::Whitespace);
    }
}

/// The tokens scanned from `pos` spell out the input from `pos` up to where
/// scanning stops.
proof fn lemma_scan_spells_prefix(s: Seq<char>, pos: int)
    requires
        0 <= pos <= s.len(),
    ensures
        pos <= scan_stop(s, pos) <= s.len(),
        joined(scan_from(s, pos)) == s.subrange(pos, scan_stop(s, pos)),
    decreases s.len() - pos,
{
    lemma_step_progress(s, pos);
    match step(s, pos) {
        Some((kind, e)) => {
            lemma_scan_spells_prefix(s, e);
            let head = seq![(kind, s.subrange(pos, e))];
            assert((head + scan_from(s, e)).drop_first() =~= scan_from(s, e));
            assert(s.subrange(pos, scan_stop(s, pos)) =~= s.subrange(pos, e) + s.subrange(
                e,
                scan_stop(s, e),
            ));
        },
        None => {
            assert(s.subrange(pos, pos) =~= Seq::<char>::empty());
        },
    }
}

/// Where every character starts a token, scanning from `pos` runs to the end.
proof fn lemma_scan_reaches_end(s: Seq<char>, pos: int)
    requires
        0 <= pos <= s.len(),
        forall|i: int| pos <= i < s.len() ==> starts_token(#[trigger] s[i]),
    ensures
        scan_stop(s, pos) == s.len(),
    decreases s.len() - pos,
{
    lemma_step_progress(s, pos);
    if pos < s.len() {
        lemma_step_at_token_start(s, pos);
        match step(s, pos) {
            Some((kind, e)) => {
                lemma_scan_reaches_end(s, e);
            },
            None => {},
        }
    }
}

/// Scanning loses and adds nothing: where every character of the input starts
/// a token, the texts of the scanned tokens, one after the other, are the
/// input itself.
pub proof fn lemma_tokens_spell_input(s: Seq<char>)
    requires
        forall|i: int| 0 <= i < s.len() ==> starts_token(#[trigger] s[i]),
    ensures
        joined(scan_from(s, 0)) == s,
{
    lemma_scan_spells_prefix(s, 0);
    lemma_scan_reaches_end(s, 0);
    assert(s.subrange(0, s.len() as int) =~= s);
}

proof fn lemma_brackets_from(s: Seq<char>, pos: int)
    requires
        0 <= pos <= s.len(),
        forall|i: int| 0 <= i < s.len() ==> bracket_char(#[trigger] s[i]),
    ensures
        scan_from(s, pos).len() == s.len() - pos,
        forall|i: int|
            0 <= i < scan_from(s, pos).len() ==> (#[trigger] scan_from(s, pos)[i]).0.spec_is_delimiter(),
    decreases s.len() - pos,
{
    if pos < s.len() {
        lemma_brackets_from(s, pos + 1);
        let c = s[pos];
        assert(bracket_char(c));
        assert(step(s, pos) == Some((crate::scan::delimiter_kind(c), pos + 1)));
        let rest = scan_from(s, pos + 1);
        assert(scan_from(s, pos) == seq![(crate::scan::delimiter_kind(c), s.subrange(pos, pos + 1))]
            + rest);
        assert forall|i: int| 0 <= i < scan_from(s, pos).len() implies (#[trigger] scan_from(
            s,
            pos,
        )[i]).0.spec_is_delimiter() by {
            if i > 0 {
                assert(scan_from(s, pos)[i] == rest[i - 1]);
            }
        }
    }
}

/// A text made only of parens, brackets and braces scans to one delimiter
/// token per character.
pub proof fn lemma_brackets_scan_to_delimiters(s: Seq<char>)
    requires
        forall|i: int| 0 <= i < s.len() ==> bracket_char(#[trigger] s[i]),
    ensures
        scan_from(s, 0).len() == s.len(),
        forall|i: int| 0 <= i < s.len() ==> (#[trigger] scan_from(s, 0)[i]).0.spec_is_delimiter(),
{
    lemma_brackets_from(s, 0);
}

/// Scanning is deterministic: two scans of one text, each as `tokenize`
/// returns it, hold the same tokens, kind for kind and character for
/// character.
pub proof fn lemma_scan_deterministic(s: Seq<char>, a: Seq<Token>, b: Seq<Token>)
    requires
        token_views(a) == scan_from(s, 0),
        token_views(b) == scan_from(s, 0),
    ensures
        a.len() == b.len(),
        forall|i: int| 0 <= i < a.len() ==> a[i].ty == b[i].ty && a[i].value@ == b[i].value@,
{
    assert(token_views(a).len() == a.len());
    assert(token_views(b).len() == b.len());
    assert forall|i: int| 0 <= i < a.len() implies a[i].ty == b[i].ty && a[i].value@
        == b[i].value@ by {
        assert(token_views(a)[i] == a[i]@);
        assert(token_views(b)[i] == b[i]@);
    }
}

} // verus!
