use elixir_lexer::{tokenize, Lexer, Token, TokenType};

fn kinds(tokens: &[Token]) -> Vec<TokenType> {
    tokens.iter().map(|t| t.ty()).collect()
}

fn values(tokens: &[Token]) -> Vec<String> {
    tokens.iter().map(|t| t.value()).collect()
}

#[test]
fn brackets_give_one_delimiter_each() {
    let input = "([{}])";
    let tokens = tokenize(input);
    assert_eq!(tokens.len(), input.chars().count());
    assert!(tokens.iter().all(|t| t.ty().is_delimiter()));
    assert_eq!(
        kinds(&tokens),
        vec![
            TokenType::LeftParen,
            TokenType::LeftBracket,
            TokenType::LeftBrace,
            TokenType::RightBrace,
            TokenType::RightBracket,
            TokenType::RightParen,
        ]
    );
}

#[test]
fn percent_is_a_delimiter() {
    let tokens = tokenize("%");
    assert_eq!(kinds(&tokens), vec![TokenType::Percent]);
}

#[test]
fn comment_is_whole_input() {
    let tokens = tokenize("# this is a comment");
    assert_eq!(tokens.len(), 1);
    assert_eq!(tokens[0].ty, TokenType::Comment);
    assert_eq!(tokens[0].value, "# this is a comment");
}

#[test]
fn comment_stops_at_line_terminator() {
    let tokens = tokenize("# a\nb");
    assert_eq!(kinds(&tokens), vec![TokenType::Comment, TokenType::NewLine, TokenType::Identifier]);
    assert_eq!(values(&tokens), vec!["# a", "\n", "b"]);
}

#[test]
fn quoted_atoms_keep_quotes_and_spaces() {
    let tokens = tokenize(":\"hello\"");
    assert_eq!(tokens.len(), 1);
    assert_eq!(tokens[0].ty, TokenType::Atom);
    assert_eq!(tokens[0].value, ":\"hello\"");
    let tokens = tokenize(":\"foo bar\"");
    assert_eq!(tokens.len(), 1);
    assert_eq!(tokens[0].ty, TokenType::Atom);
    assert_eq!(tokens[0].value, ":\"foo bar\"");
}

#[test]
fn colon_without_atom_is_an_operator() {
    let tokens = tokenize(":: x");
    assert_eq!(tokens[0].ty, TokenType::Operator);
    assert_eq!(tokens[0].value, "::");
    let tokens = tokenize(":");
    assert_eq!(kinds(&tokens), vec![TokenType::Operator]);
    assert_eq!(tokens[0].value, ":");
}

#[test]
fn char_literal_with_accent() {
    let tokens = tokenize("?á");
    assert_eq!(tokens.len(), 1);
    assert_eq!(tokens[0].ty, TokenType::Char);
    assert_eq!(tokens[0].value, "?á");
}

#[test]
fn tab_and_carriage_return_are_newlines() {
    for s in ["\n", "\t", "\r"] {
        let tokens = tokenize(s);
        assert_eq!(tokens.len(), 1);
        assert_eq!(tokens[0].ty, TokenType::NewLine);
        assert_eq!(tokens[0].value, s);
    }
    let tokens = tokenize("\n\n");
    assert_eq!(tokens.len(), 2);
}

#[test]
fn operator_runs_are_maximal() {
    let tokens = tokenize("a <|> b");
    assert_eq!(values(&tokens), vec!["a", " ", "<|>", " ", "b"]);
    assert_eq!(tokens[2].ty, TokenType::Operator);
}

#[test]
fn operator_stress_string_is_all_operators() {
    let ops = r#"- + / ^ ^^^ &&& & \\\ * ** ! && <- || ||| == != =~ === !== < > <= >= |> <<< >>> <<~ ~>> <~ ~> <~> <|> +++ --- <> ++ -- => :: | // .. ."#;
    let tokens = tokenize(ops);
    let joined: String = tokens.iter().map(|t| t.value.as_str()).collect();
    assert_eq!(joined, ops);
    for t in &tokens {
        assert!(t.ty.is_operator() || t.ty.is_whitespace() || t.ty.is_newline());
    }
}

#[test]
fn numeric_literals_are_single_tokens() {
    for s in ["40", "11.45", "1.11e10", "0b1010", "0o17", "0xFFF"] {
        let tokens = tokenize(s);
        assert_eq!(tokens.len(), 1);
        assert_eq!(tokens[0].ty, TokenType::Number);
        assert_eq!(tokens[0].value, s);
    }
}

#[test]
fn reserved_words_get_their_own_kinds() {
    let cases = [
        ("defmodule", TokenType::Defmodule),
        ("@spec", TokenType::Spec),
        ("@doc", TokenType::Doc),
        ("@moduledoc", TokenType::ModuleDoc),
        ("elseif", TokenType::ElseIf),
        ("true", TokenType::True),
        ("false", TokenType::False),
        ("nil", TokenType::Nil),
        ("use", TokenType::Use),
        ("_ignored", TokenType::Identifier),
        ("defmodules", TokenType::Identifier),
        ("de", TokenType::Identifier),
    ];
    for (text, kind) in cases {
        let tokens = tokenize(text);
        assert_eq!(tokens.len(), 1);
        assert_eq!(tokens[0].ty, kind);
        assert!(tokens[0].ty.is_identifier());
        assert_eq!(tokens[0].value, text);
    }
}

#[test]
fn whitespace_runs_are_one_token() {
    let tokens = tokenize("a   b");
    assert_eq!(values(&tokens), vec!["a", "   ", "b"]);
    assert_eq!(tokens[1].ty, TokenType::WhiteSpace);
}

#[test]
fn scanning_twice_gives_the_same_tokens() {
    let input = "defmodule Foo do\n  def bar(x), do: x + 1 # hi\nend";
    assert_eq!(tokenize(input), tokenize(input));
    let mut a = Lexer::new(input);
    let mut b = Lexer::new(input);
    loop {
        let (x, y) = (a.next(), b.next());
        assert_eq!(x, y);
        if x.is_none() {
            break;
        }
    }
}

#[test]
fn token_texts_spell_the_input() {
    let input = "defmodule Foo do\n  @spec bar(integer) :: :ok\n  def bar(x), do: {:\"a b\", ?c, 0xFF, [1, 2]} # done\nend\n";
    let tokens = tokenize(input);
    let joined: String = tokens.iter().map(|t| t.value.as_str()).collect();
    assert_eq!(joined, input);
}

#[test]
fn sample_program_kinds() {
    let tokens = tokenize("def f(x), do: x");
    assert_eq!(
        kinds(&tokens),
        vec![
            TokenType::Def,
            TokenType::WhiteSpace,
            TokenType::Identifier,
            TokenType::LeftParen,
            TokenType::Identifier,
            TokenType::RightParen,
            TokenType::Comma,
            TokenType::WhiteSpace,
            TokenType::Do,
            TokenType::Operator,
            TokenType::WhiteSpace,
            TokenType::Identifier,
        ]
    );
}

#[test]
fn unrecognized_character_stops_the_scan() {
    let mut lex = Lexer::new("a`b");
    assert_eq!(lex.next().unwrap().value, "a");
    assert!(lex.next().is_none());
    assert!(!lex.is_done());
    assert_eq!(lex.peek(), Some(&'`'));
    assert_eq!(tokenize("a`b").len(), 1);
}

#[test]
fn non_ascii_digit_starts_no_token() {
    let mut lex = Lexer::new("\u{0663}");
    assert!(lex.next().is_none());
    assert!(!lex.is_done());
    let tokens = tokenize("x\u{0663}");
    assert_eq!(values(&tokens), vec!["x\u{0663}"]);
}

#[test]
fn non_ascii_whitespace_is_whitespace() {
    let tokens = tokenize("a\u{00a0}\u{2003}b");
    assert_eq!(values(&tokens), vec!["a", "\u{00a0}\u{2003}", "b"]);
    assert_eq!(tokens[1].ty, TokenType::WhiteSpace);
}

#[test]
fn empty_input_gives_no_tokens() {
    assert!(tokenize("").is_empty());
    let mut lex = Lexer::new("");
    assert!(lex.is_done());
    assert!(lex.next().is_none());
    assert!(lex.peek().is_none());
}

#[test]
fn cursor_reads_and_peeks() {
    let mut lex = Lexer::new("aé");
    assert_eq!(lex.peek(), Some(&'a'));
    assert_eq!(lex.peek_ahead(1), Some(&'é'));
    assert_eq!(lex.peek_ahead(2), None);
    assert_eq!(lex.peek_ahead(usize::MAX), None);
    assert_eq!(lex.read_char(), Some(&'a'));
    assert_eq!(lex.peek(), Some(&'é'));
    assert!(!lex.is_done());
    assert_eq!(lex.read_char(), Some(&'é'));
    assert!(lex.is_done());
    assert_eq!(lex.read_char(), None);
    assert_eq!(lex.peek_ahead(0), None);
}

#[test]
fn token_accessors() {
    let t = Token::new(TokenType::Atom, ":a".to_string());
    assert_eq!(t.ty(), TokenType::Atom);
    assert_eq!(t.value(), ":a");
    assert!(TokenType::Atom.is_atom());
    assert!(TokenType::Boolean.is_boolean());
    assert!(TokenType::Char.is_char());
    assert!(TokenType::Comment.is_comment());
    assert!(TokenType::Comma.is_comma());
    assert!(TokenType::Percent.is_delimiter());
    assert!(TokenType::Var.is_identifier());
    assert!(TokenType::NewLine.is_newline());
    assert!(TokenType::Number.is_number());
    assert!(TokenType::Operator.is_operator());
    assert!(TokenType::Quote.is_quote());
    assert!(TokenType::WhiteSpace.is_whitespace());
    assert!(!TokenType::Atom.is_operator());
    assert!(!TokenType::Comma.is_delimiter());
    assert!(!TokenType::Operator.is_identifier());
}

#[test]
fn whitespace_run_stops_at_line_terminator() {
    let tokens = tokenize(" \n");
    assert_eq!(kinds(&tokens), vec![TokenType::WhiteSpace, TokenType::NewLine]);
    assert_eq!(values(&tokens), vec![" ", "\n"]);
    let tokens = tokenize("a  \t\r\n b");
    assert_eq!(values(&tokens), vec!["a", "  ", "\t", "\r", "\n", " ", "b"]);
}

#[test]
fn unquoted_atom_stops_at_whitespace() {
    let tokens = tokenize(":ok\n  def");
    assert_eq!(values(&tokens), vec![":ok", "\n", "  ", "def"]);
    assert_eq!(tokens[0].ty, TokenType::Atom);
    let tokens = tokenize(":ok end");
    assert_eq!(values(&tokens), vec![":ok", " ", "end"]);
}

#[test]
fn quoted_atom_keeps_whitespace_after_its_quote() {
    let tokens = tokenize(":a\"b c\" d");
    assert_eq!(tokens[0].ty, TokenType::Atom);
    assert_eq!(tokens[0].value, ":a\"b c\" d");
    let tokens = tokenize(":\"x\",y");
    assert_eq!(values(&tokens), vec![":\"x\"", ",", "y"]);
}
