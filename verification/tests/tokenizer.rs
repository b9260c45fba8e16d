use arsenal::tokenizer::{parse_pattern, prefix_of, tokenize, ArsenalToken, Token, TokenKind};

fn kinds(text: &str) -> Vec<(TokenKind, String)> {
    let tokens: Vec<ArsenalToken> = tokenize(text);
    tokens.iter().map(|t| (t.kind(), t.lexeme().to_string())).collect()
}

fn one(kind: TokenKind, text: &str) -> (TokenKind, String) {
    (kind, text.to_string())
}

#[test]
fn every_kind_of_token() {
    assert_eq!(
        kinds("; , -> 0x1F 42 label .dot name & $ : => = ( ) \"s\" #"),
        vec![
            one(TokenKind::LineEnd, ";"),
            one(TokenKind::Separator, ","),
            one(TokenKind::Range, "->"),
            one(TokenKind::Hex, "0x1F"),
            one(TokenKind::Number, "42"),
            one(TokenKind::Label, "label"),
            one(TokenKind::SpecialIdentifier, ".dot"),
            one(TokenKind::Identifier, "name"),
            one(TokenKind::IDGrab, "&"),
            one(TokenKind::SizeGrab, "$"),
            one(TokenKind::Selection, ":"),
            one(TokenKind::Shift, "=>"),
            one(TokenKind::VarAssignment, "="),
            one(TokenKind::OpenParen, "("),
            one(TokenKind::ClosedParen, ")"),
            one(TokenKind::StringLiteral, "\"s\""),
            one(TokenKind::NumericSlice, "#"),
        ]
    );
}

#[test]
fn earlier_patterns_win() {
    assert_eq!(kinds("->"), vec![one(TokenKind::Range, "->")]);
    assert_eq!(kinds("=>"), vec![one(TokenKind::Shift, "=>")]);
    assert_eq!(
        kinds("labels"),
        vec![one(TokenKind::Label, "label"), one(TokenKind::Identifier, "s")]
    );
    assert_eq!(
        kinds("007"),
        vec![
            one(TokenKind::Number, "0"),
            one(TokenKind::Number, "0"),
            one(TokenKind::Number, "7")
        ]
    );
    assert_eq!(kinds("0xff"), vec![one(TokenKind::Hex, "0xff")]);
    assert_eq!(kinds("1->2"), vec![
        one(TokenKind::Number, "1"),
        one(TokenKind::Range, "->"),
        one(TokenKind::Number, "2")
    ]);
}

#[test]
fn whitespace_and_comments_are_stripped() {
    assert_eq!(kinds("  \t\n "), vec![]);
    assert_eq!(kinds("a // rest of line\nb"), vec![
        one(TokenKind::Identifier, "a"),
        one(TokenKind::Identifier, "b")
    ]);
    assert_eq!(kinds("a /* in * between */ b"), vec![
        one(TokenKind::Identifier, "a"),
        one(TokenKind::Identifier, "b")
    ]);
}

#[test]
fn string_with_escaped_quote_is_one_token() {
    assert_eq!(
        kinds("\"a\\\"b\" c"),
        vec![one(TokenKind::StringLiteral, "\"a\\\"b\""), one(TokenKind::Identifier, "c")]
    );
}

#[test]
fn tokens_end_where_nothing_matches() {
    assert_eq!(kinds("a ? b"), vec![one(TokenKind::Identifier, "a")]);
    assert_eq!(kinds("a // no line end"), vec![one(TokenKind::Identifier, "a")]);
    assert_eq!(kinds(""), vec![]);
}

#[test]
fn next_hands_back_the_rest() {
    let (token, rest) = ArsenalToken::next("name: 1").unwrap();
    assert_eq!(token.kind(), TokenKind::Identifier);
    assert_eq!(token.lexeme(), "name");
    assert_eq!(rest, ": 1");
    assert!(!token.is_whitespace());
    let (token, rest) = ArsenalToken::next("  x").unwrap();
    assert!(token.is_whitespace());
    assert_eq!(rest, "x");
    assert!(ArsenalToken::next("?").is_none());
    assert!(ArsenalToken::next("").is_none());
    let (token, rest) = ArsenalToken::next("\u{e9}t\u{e9};").unwrap_or((
        ArsenalToken::Whitespace(String::new()),
        "none",
    ));
    assert!(token.is_whitespace());
    assert_eq!(rest, "none");
}

#[test]
fn pattern_must_match_at_the_start() {
    assert_eq!(parse_pattern("[0-9]+", "123abc"), Some(("123".to_string(), 3)));
    assert_eq!(parse_pattern("[0-9]+", "abc123"), None);
    assert_eq!(parse_pattern("[0-9]*", "abc"), None);
    assert_eq!(parse_pattern("(", "abc"), None);
    assert_eq!(parse_pattern("\u{e9}+", "\u{e9}\u{e9}x"), Some(("\u{e9}\u{e9}".to_string(), 4)));
}

#[test]
fn prefix_of_a_search_result() {
    assert_eq!(prefix_of(Some(Some((0, 2))), "abc"), Some(("ab".to_string(), 2)));
    assert_eq!(prefix_of(Some(Some((1, 2))), "abc"), None);
    assert_eq!(prefix_of(Some(Some((0, 0))), "abc"), None);
    assert_eq!(prefix_of(Some(Some((0, 4))), "abc"), None);
    assert_eq!(prefix_of(Some(Some((0, 1))), "\u{e9}"), None);
    assert_eq!(prefix_of(Some(None), "abc"), None);
    assert_eq!(prefix_of(None, "abc"), None);
}

#[test]
fn empty_line_comment_is_stripped() {
    assert_eq!(kinds("a //\nb"), vec![
        one(TokenKind::Identifier, "a"),
        one(TokenKind::Identifier, "b")
    ]);
    assert_eq!(kinds("//\n//\n;"), vec![one(TokenKind::LineEnd, ";")]);
    assert_eq!(kinds("// x\n;"), vec![one(TokenKind::LineEnd, ";")]);
    let (token, rest) = ArsenalToken::next("//\nHalt;").unwrap();
    assert_eq!(token.kind(), TokenKind::Comment);
    assert_eq!(token.lexeme(), "//\n");
    assert_eq!(rest, "Halt;");
}

#[test]
fn text_is_the_token_and_the_rest() {
    for text in ["label x;", "  \t x", "0x1f,2", "\"s\\\"t\" u", "/* c */ d", "->=>", "\u{a0}caf\u{e9}"] {
        let mut left = text;
        while let Some((token, rest)) = ArsenalToken::next(left) {
            assert!(!token.lexeme().is_empty());
            assert_eq!(format!("{}{}", token.lexeme(), rest), left);
            assert!(rest.len() < left.len());
            left = rest;
        }
    }
}
