//! The tokenizer: source text to the tokens that the assembler reads.

use vstd::prelude::*;
use vstd::string::*;
use vstd::utf8::*;

verus! {

broadcast use {
    vstd::utf8::encode_utf8_valid_utf8,
    vstd::utf8::encode_utf8_decode_utf8,
    vstd::utf8::decode_utf8_encode_utf8,
};

/// The kinds of token.
#[derive(Clone, Copy, Debug, PartialEq, Eq, Structural)]
pub enum TokenKind {
    /// A run of whitespace.
    Whitespace,
    /// `;`
    LineEnd,
    /// `,`
    Separator,
    /// A name.
    Identifier,
    /// `0x` and hexadecimal digits.
    Hex,
    /// A decimal integer.
    Number,
    /// A double-quoted string, quotes included.
    StringLiteral,
    /// The keyword `label`.
    Label,
    /// A name behind a dot.
    SpecialIdentifier,
    /// `&`
    IDGrab,
    /// `$`
    SizeGrab,
    /// `:`
    Selection,
    /// `->`
    Range,
    /// `=>`
    Shift,
    /// `=`
    VarAssignment,
    /// `(`
    OpenParen,
    /// `)`
    ClosedParen,
    /// A comment, to the end of the line or between `/*` and `*/`.
    Comment,
    /// `#`
    NumericSlice,
}

/// A token with the text that it was read from.
#[derive(Debug, Clone)]
pub enum ArsenalToken {
    Whitespace(String),
    LineEnd(String),
    Separator(String),
    Identifier(String),
    Hex(String),
    Number(String),
    StringLiteral(String),
    Label(String),
    SpecialIdentifier(String),
    IDGrab(String),
    SizeGrab(String),
    Selection(String),
    Range(String),
    Shift(String),
    VarAssignment(String),
    OpenParen(String),
    ClosedParen(String),
    Comment(String),
    NumericSlice(String),
}

/// A token as plain values: its kind and its text.
pub struct TokenView {
    pub kind: TokenKind,
    pub lexeme: Seq<char>,
}

impl View for ArsenalToken {
    type V = TokenView;

    open spec fn view(&self) -> TokenView {
        match self {
            ArsenalToken::Whitespace(s) => TokenView { kind: TokenKind::Whitespace, lexeme: s@ },
            ArsenalToken::LineEnd(s) => TokenView { kind: TokenKind::LineEnd, lexeme: s@ },
            ArsenalToken::Separator(s) => TokenView { kind: TokenKind::Separator, lexeme: s@ },
            ArsenalToken::Identifier(s) => TokenView { kind: TokenKind::Identifier, lexeme: s@ },
            ArsenalToken::Hex(s) => TokenView { kind: TokenKind::Hex, lexeme: s@ },
            ArsenalToken::Number(s) => TokenView { kind: TokenKind::Number, lexeme: s@ },
            ArsenalToken::StringLiteral(s) => TokenView {
                kind: TokenKind::StringLiteral,
                lexeme: s@,
            },
            ArsenalToken::Label(s) => TokenView { kind: TokenKind::Label, lexeme: s@ },
            ArsenalToken::SpecialIdentifier(s) => TokenView {
                kind: TokenKind::SpecialIdentifier,
                lexeme: s@,
            },
            ArsenalToken::IDGrab(s) => TokenView { kind: TokenKind::IDGrab, lexeme: s@ },
            ArsenalToken::SizeGrab(s) => TokenView { kind: TokenKind::SizeGrab, lexeme: s@ },
            ArsenalToken::Selection(s) => TokenView { kind: TokenKind::Selection, lexeme: s@ },
            ArsenalToken::Range(s) => TokenView { kind: TokenKind::Range, lexeme: s@ },
            ArsenalToken::Shift(s) => TokenView { kind: TokenKind::Shift, lexeme: s@ },
            ArsenalToken::VarAssignment(s) => TokenView {
                kind: TokenKind::VarAssignment,
                lexeme: s@,
            },
            ArsenalToken::OpenParen(s) => TokenView { kind: TokenKind::OpenParen, lexeme: s@ },
            ArsenalToken::ClosedParen(s) => TokenView { kind: TokenKind::ClosedParen, lexeme: s@ },
            ArsenalToken::Comment(s) => TokenView { kind: TokenKind::Comment, lexeme: s@ },
            ArsenalToken::NumericSlice(s) => TokenView {
                kind: TokenKind::NumericSlice,
                lexeme: s@,
            },
        }
    }
}

impl ArsenalToken {
    /// The token of kind `kind` with the text `lexeme`.
    pub fn new(kind: TokenKind, lexeme: String) -> (token: ArsenalToken)
        ensures
            token@.kind == kind,
            token@.lexeme == lexeme@,
    {
        match kind {
            TokenKind::Whitespace => ArsenalToken::Whitespace(lexeme),
            TokenKind::LineEnd => ArsenalToken::LineEnd(lexeme),
            TokenKind::Separator => ArsenalToken::Separator(lexeme),
            TokenKind::Identifier => ArsenalToken::Identifier(lexeme),
            TokenKind::Hex => ArsenalToken::Hex(lexeme),
            TokenKind::Number => ArsenalToken::Number(lexeme),
            TokenKind::StringLiteral => ArsenalToken::StringLiteral(lexeme),
            TokenKind::Label => ArsenalToken::Label(lexeme),
            TokenKind::SpecialIdentifier => ArsenalToken::SpecialIdentifier(lexeme),
            TokenKind::IDGrab => ArsenalToken::IDGrab(lexeme),
            TokenKind::SizeGrab => ArsenalToken::SizeGrab(lexeme),
            TokenKind::Selection => ArsenalToken::Selection(lexeme),
            TokenKind::Range => ArsenalToken::Range(lexeme),
            TokenKind::Shift => ArsenalToken::Shift(lexeme),
            TokenKind::VarAssignment => ArsenalToken::VarAssignment(lexeme),
            TokenKind::OpenParen => ArsenalToken::OpenParen(lexeme),
            TokenKind::ClosedParen => ArsenalToken::ClosedParen(lexeme),
            TokenKind::Comment => ArsenalToken::Comment(lexeme),
            TokenKind::NumericSlice => ArsenalToken::NumericSlice(lexeme),
        }
    }

    pub fn kind(&self) -> (kind: TokenKind)
        ensures
            kind == self@.kind,
    {
        match self {
            ArsenalToken::Whitespace(_) => TokenKind::Whitespace,
            ArsenalToken::LineEnd(_) => TokenKind::LineEnd,
            ArsenalToken::Separator(_) => TokenKind::Separator,
            ArsenalToken::Identifier(_) => TokenKind::Identifier,
            ArsenalToken::Hex(_) => TokenKind::Hex,
            ArsenalToken::Number(_) => TokenKind::Number,
            ArsenalToken::StringLiteral(_) => TokenKind::StringLiteral,
            ArsenalToken::Label(_) => TokenKind::Label,
            ArsenalToken::SpecialIdentifier(_) => TokenKind::SpecialIdentifier,
            ArsenalToken::IDGrab(_) => TokenKind::IDGrab,
            ArsenalToken::SizeGrab(_) => TokenKind::SizeGrab,
            ArsenalToken::Selection(_) => TokenKind::Selection,
            ArsenalToken::Range(_) => TokenKind::Range,
            ArsenalToken::Shift(_) => TokenKind::Shift,
            ArsenalToken::VarAssignment(_) => TokenKind::VarAssignment,
            ArsenalToken::OpenParen(_) => TokenKind::OpenParen,
            ArsenalToken::ClosedParen(_) => TokenKind::ClosedParen,
            ArsenalToken::Comment(_) => TokenKind::Comment,
            ArsenalToken::NumericSlice(_) => TokenKind::NumericSlice,
        }
    }

    pub fn lexeme(&self) -> (lexeme: &str)
        ensures
            lexeme@ == self@.lexeme,
    {
        match self {
            ArsenalToken::Whitespace(s) => s.as_str(),
            ArsenalToken::LineEnd(s) => s.as_str(),
            ArsenalToken::Separator(s) => s.as_str(),
            ArsenalToken::Identifier(s) => s.as_str(),
            ArsenalToken::Hex(s) => s.as_str(),
            ArsenalToken::Number(s) => s.as_str(),
            ArsenalToken::StringLiteral(s) => s.as_str(),
            ArsenalToken::Label(s) => s.as_str(),
            ArsenalToken::SpecialIdentifier(s) => s.as_str(),
            ArsenalToken::IDGrab(s) => s.as_str(),
            ArsenalToken::SizeGrab(s) => s.as_str(),
            ArsenalToken::Selection(s) => s.as_str(),
            ArsenalToken::Range(s) => s.as_str(),
            ArsenalToken::Shift(s) => s.as_str(),
            ArsenalToken::VarAssignment(s) => s.as_str(),
            ArsenalToken::OpenParen(s) => s.as_str(),
            ArsenalToken::ClosedParen(s) => s.as_str(),
            ArsenalToken::Comment(s) => s.as_str(),
            ArsenalToken::NumericSlice(s) => s.as_str(),
        }
    }
}

/// The number of patterns that are tried at each position.
pub const PATTERN_COUNT: usize = 20;

/// Pattern `i` of the patterns that are tried in turn, as a regular
/// expression.
pub open spec fn spec_pattern(i: int) -> Seq<char> {
    if i <= 0 {
        "\\s+"@
    } else if i == 1 {
        ";"@
    } else if i == 2 {
        ","@
    } else if i == 3 {
        "->"@
    } else if i == 4 {
        "\\b0[xX][0-9A-Fa-f]+\\b"@
    } else if i == 5 {
        "0|([1-9]([0-9]+)?)"@
    } else if i == 6 {
        "label"@
    } else if i == 7 {
        "^\\.[a-zA-Z_][a-zA-Z0-9_]*"@
    } else if i == 8 {
        "^[a-zA-Z_][a-zA-Z0-9_]*"@
    } else if i == 9 {
        "&"@
    } else if i == 10 {
        "\\$"@
    } else if i == 11 {
        ":"@
    } else if i == 12 {
        "=>"@
    } else if i == 13 {
        "="@
    } else if i == 14 {
        "\\("@
    } else if i == 15 {
        "\\)"@
    } else if i == 16 {
        "\"(?:\\\\.|[^\\\\\"])*\""@
    } else if i == 17 {
        "//[^\\n]*\\n"@
    } else if i == 18 {
        "/\\*[^*]*\\*+(?:[^/*][^*]*\\*+)*/"@
    } else {
        "#"@
    }
}

/// The kind of the tokens that pattern `i` reads.
pub open spec fn spec_pattern_kind(i: int) -> TokenKind {
    if i <= 0 {
        TokenKind::Whitespace
    } else if i == 1 {
        TokenKind::LineEnd
    } else if i == 2 {
        TokenKind::Separator
    } else if i == 3 {
        TokenKind::Range
    } else if i == 4 {
        TokenKind::Hex
    } else if i == 5 {
        TokenKind::Number
    } else if i == 6 {
        TokenKind::Label
    } else if i == 7 {
        TokenKind::SpecialIdentifier
    } else if i == 8 {
        TokenKind::Identifier
    } else if i == 9 {
        TokenKind::IDGrab
    } else if i == 10 {
        TokenKind::SizeGrab
    } else if i == 11 {
        TokenKind::Selection
    } else if i == 12 {
        TokenKind::Shift
    } else if i == 13 {
        TokenKind::VarAssignment
    } else if i == 14 {
        TokenKind::OpenParen
    } else if i == 15 {
        TokenKind::ClosedParen
    } else if i == 16 {
        TokenKind::StringLiteral
    } else if i == 17 {
        TokenKind::Comment
    } else if i == 18 {
        TokenKind::Comment
    } else {
        TokenKind::NumericSlice
    }
}

fn pattern(i: usize) -> (p: &'static str)
    requires
        i < PATTERN_COUNT,
    ensures
        p@ == spec_pattern(i as int),
{
    if i == 0 {
        "\\s+"
    } else if i == 1 {
        ";"
    } else if i == 2 {
        ","
    } else if i == 3 {
        "->"
    } else if i == 4 {
        "\\b0[xX][0-9A-Fa-f]+\\b"
    } else if i == 5 {
        "0|([1-9]([0-9]+)?)"
    } else if i == 6 {
        "label"
    } else if i == 7 {
        "^\\.[a-zA-Z_][a-zA-Z0-9_]*"
    } else if i == 8 {
        "^[a-zA-Z_][a-zA-Z0-9_]*"
    } else if i == 9 {
        "&"
    } else if i == 10 {
        "\\$"
    } else if i == 11 {
        ":"
    } else if i == 12 {
        "=>"
    } else if i == 13 {
        "="
    } else if i == 14 {
        "\\("
    } else if i == 15 {
        "\\)"
    } else if i == 16 {
        "\"(?:\\\\.|[^\\\\\"])*\""
    } else if i == 17 {
        "//[^\\n]*\\n"
    } else if i == 18 {
        "/\\*[^*]*\\*+(?:[^/*][^*]*\\*+)*/"
    } else {
        "#"
    }
}

fn pattern_kind(i: usize) -> (kind: TokenKind)
    requires
        i < PATTERN_COUNT,
    ensures
        kind == spec_pattern_kind(i as int),
{
    if i == 0 {
        TokenKind::Whitespace
    } else if i == 1 {
        TokenKind::LineEnd
    } else if i == 2 {
        TokenKind::Separator
    } else if i == 3 {
        TokenKind::Range
    } else if i == 4 {
        TokenKind::Hex
    } else if i == 5 {
        TokenKind::Number
    } else if i == 6 {
        TokenKind::Label
    } else if i == 7 {
        TokenKind::SpecialIdentifier
    } else if i == 8 {
        TokenKind::Identifier
    } else if i == 9 {
        TokenKind::IDGrab
    } else if i == 10 {
        TokenKind::SizeGrab
    } else if i == 11 {
        TokenKind::Selection
    } else if i == 12 {
        TokenKind::Shift
    } else if i == 13 {
        TokenKind::VarAssignment
    } else if i == 14 {
        TokenKind::OpenParen
    } else if i == 15 {
        TokenKind::ClosedParen
    } else if i == 16 {
        TokenKind::StringLiteral
    } else if i == 17 {
        TokenKind::Comment
    } else if i == 18 {
        TokenKind::Comment
    } else {
        TokenKind::NumericSlice
    }
}

/// What `Regex::new(pattern)` and then `Regex::find(text)` of the regex crate
/// give: `None` where the pattern does not compile, `Some(None)` where it
/// matches nowhere in `text`, else the byte offsets at which the leftmost
/// match starts and ends.
pub uninterp spec fn regex_find(pattern: Seq<char>, text: Seq<char>) -> Option<
    Option<(usize, usize)>,
>;

/// Whether the offsets of a match lie in `text` as the regex crate
/// documents them: the start is not behind the end, and both fall on
/// character boundaries of the text's UTF-8 encoding.
pub open spec fn on_boundaries(found: Option<Option<(usize, usize)>>, text: Seq<char>) -> bool {
    found matches Some(Some((start, end))) ==> start <= end && is_char_boundary(
        encode_utf8(text),
        start as int,
    ) && is_char_boundary(encode_utf8(text), end as int)
}

/// Compiles `pattern` with `regex::Regex::new` and searches `text` with
/// `Regex::find`. The contract names what they return, and says of a
/// match's offsets what the documentation of `Match::start` and
/// `Match::end` promises.
#[verifier::external_body]
fn find_first(pattern: &str, text: &str) -> (r: Option<Option<(usize, usize)>>)
    ensures
        r == regex_find(pattern@, text@),
        on_boundaries(r, text@),
{
    match regex::Regex::new(pattern) {
        Ok(re) => match re.find(text) {
            Some(found) => Some(Some((found.start(), found.end()))),
            None => Some(None),
        },
        Err(_) => None,
    }
}

/// The text of the first `n` bytes of the UTF-8 encoding of `text`.
pub open spec fn text_before(text: Seq<char>, n: int) -> Seq<char> {
    decode_utf8(encode_utf8(text).subrange(0, n))
}

/// The text behind the first `n` bytes of the UTF-8 encoding of `text`.
pub open spec fn text_after(text: Seq<char>, n: int) -> Seq<char> {
    decode_utf8(encode_utf8(text).subrange(n, encode_utf8(text).len() as int))
}

/// Whether a search's result is a match that starts `text` and is not
/// empty: it starts at byte 0 and ends behind a whole character.
pub open spec fn is_prefix(found: Option<Option<(usize, usize)>>, text: Seq<char>) -> bool {
    match found {
        Some(Some((start, end))) => start == 0 && 0 < end && is_char_boundary(
            encode_utf8(text),
            end as int,
        ),
        _ => false,
    }
}

/// The length in bytes of a match that starts `text` and is not empty.
pub open spec fn prefix_length(found: Option<Option<(usize, usize)>>, text: Seq<char>) -> Option<
    int,
> {
    match found {
        Some(Some((start, end))) => if is_prefix(found, text) {
            Some(end as int)
        } else {
            None
        },
        _ => None,
    }
}

/// The length in bytes of a match that starts at byte 0 and is not empty.
pub open spec fn starting_match(found: Option<Option<(usize, usize)>>) -> Option<int> {
    match found {
        Some(Some((start, end))) => if start == 0 && 0 < end {
            Some(end as int)
        } else {
            None
        },
        _ => None,
    }
}

/// The length in bytes of what `pattern` matches at the start of `text`, if
/// its leftmost match starts there and is not empty.
pub open spec fn spec_parse_pattern(pattern: Seq<char>, text: Seq<char>) -> Option<int> {
    starting_match(regex_find(pattern, text))
}

/// The matched text and its length in bytes, where a search's result is a
/// match that starts `text` and is not empty.
pub fn prefix_of(found: Option<Option<(usize, usize)>>, text: &str) -> (r: Option<(String, usize)>)
    ensures
        r is Some <==> prefix_length(found, text@) is Some,
        r matches Some((lexeme, length)) ==> prefix_length(found, text@) == Some(length as int)
            && lexeme@ == text_before(text@, length as int),
{
    match found {
        Some(Some((start, end))) => {
            if start == 0 && end > 0 && text.is_char_boundary(end) {
                let (matched, _) = text.split_at(end);
                Some((String::from_str(matched), end))
            } else {
                None
            }
        },
        _ => None,
    }
}

/// What `pattern` matches at the start of `text`, with its length in bytes.
pub fn parse_pattern(pattern: &str, text: &str) -> (r: Option<(String, usize)>)
    ensures
        r is Some <==> spec_parse_pattern(pattern@, text@) is Some,
        r matches Some((lexeme, length)) ==> spec_parse_pattern(pattern@, text@) == Some(
            length as int,
        ) && lexeme@ == text_before(text@, length as int) && is_char_boundary(
            encode_utf8(text@),
            length as int,
        ),
{
    prefix_of(find_first(pattern, text), text)
}

/// A kind of token that can be read from the start of a text.
pub trait Token: Sized + View {
    /// The token at the start of `data` and the text behind it, if there is
    /// a token there.
    spec fn spec_next(data: Seq<char>) -> Option<(Self::V, Seq<char>)>;

    /// Whether the token is left out of what `tokenize` returns.
    spec fn spec_is_whitespace(token: Self::V) -> bool;

    /// Reads the token at the start of `data`. The text that is left is
    /// shorter than `data`.
    fn next(data: &str) -> (r: Option<(Self, &str)>)
        ensures
            r is Some <==> Self::spec_next(data@) is Some,
            r matches Some((token, rest)) ==> Self::spec_next(data@) == Some((token@, rest@))
                && rest@.len() < data@.len(),
    ;

    fn is_whitespace(&self) -> (r: bool)
        ensures
            r == Self::spec_is_whitespace(self@),
    ;
}

/// The token that the first of the patterns from `i` on to match reads at
/// the start of `text`, and the text behind it.
pub open spec fn first_match(text: Seq<char>, i: int) -> Option<(TokenView, Seq<char>)>
    decreases PATTERN_COUNT - i,
{
    if i < 0 || i >= PATTERN_COUNT {
        None
    } else {
        match spec_parse_pattern(spec_pattern(i), text) {
            Some(length) => Some(
                (
                    TokenView { kind: spec_pattern_kind(i), lexeme: text_before(text, length) },
                    text_after(text, length),
                ),
            ),
            None => first_match(text, i + 1),
        }
    }
}

/// Text that is cut behind a whole character and not at its start is the
/// part before the cut, which is not empty, and the part behind it.
pub proof fn text_splits(text: Seq<char>, n: int)
    requires
        0 < n,
        is_char_boundary(encode_utf8(text), n),
    ensures
        text == text_before(text, n) + text_after(text, n),
        text_before(text, n).len() > 0,
        text_after(text, n).len() < text.len(),
{
    let bytes = encode_utf8(text);
    decode_utf8_split(bytes, n);
    valid_utf8_split(bytes, n);
    assert(bytes.len() >= n) by {
        reveal_with_fuel(is_char_boundary, 1);
    }
}

impl Token for ArsenalToken {
    open spec fn spec_next(data: Seq<char>) -> Option<(TokenView, Seq<char>)> {
        first_match(data, 0)
    }

    open spec fn spec_is_whitespace(token: TokenView) -> bool {
        token.kind == TokenKind::Whitespace || token.kind == TokenKind::Comment
    }

    fn next(data: &str) -> (r: Option<(Self, &str)>)
        ensures
            r matches Some((token, rest)) ==> token@.lexeme.len() > 0 && data@ == token@.lexeme
                + rest@,
    {
        let mut i: usize = 0;
        while i < PATTERN_COUNT
            invariant
                i <= PATTERN_COUNT,
                first_match(data@, 0) == first_match(data@, i as int),
            decreases PATTERN_COUNT - i,
        {
            match parse_pattern(pattern(i), data) {
                Some((lexeme, length)) => {
                    proof {
                        text_splits(data@, length as int);
                    }
                    let (_, rest) = data.split_at(length);
                    return Some((ArsenalToken::new(pattern_kind(i), lexeme), rest));
                },
                None => {},
            }
            i += 1;
        }
        None
    }

    fn is_whitespace(&self) -> (r: bool) {
        match self {
            Self::Whitespace(_) => true,
            Self::Comment(_) => true,
            _ => false,
        }
    }
}

/// The tokens of `text` in order, without those that are whitespace; they
/// end where no token starts.
pub open spec fn spec_tokenize<T: Token>(text: Seq<char>) -> Seq<T::V>
    decreases text.len(),
{
    match T::spec_next(text) {
        Some((token, rest)) => if rest.len() < text.len() {
            if T::spec_is_whitespace(token) {
                spec_tokenize::<T>(rest)
            } else {
                seq![token] + spec_tokenize::<T>(rest)
            }
        } else {
            Seq::empty()
        },
        None => Seq::empty(),
    }
}

/// The views of the tokens in `tokens`.
pub open spec fn views<T: View>(tokens: Seq<T>) -> Seq<T::V> {
    tokens.map_values(|t: T| t@)
}

/// Reads the tokens of `input` and leaves out whitespace and comments.
/// Where no token starts, the tokens end.
pub fn tokenize<T: Token>(input: &str) -> (tokens: Vec<T>)
    ensures
        views(tokens@) == spec_tokenize::<T>(input@),
{
    let mut tokens: Vec<T> = Vec::new();
    let mut text = input;
    loop
        invariant
            views(tokens@) + spec_tokenize::<T>(text@) == spec_tokenize::<T>(input@),
        decreases text@.len(),
    {
        match T::next(text) {
            Some((token, rest)) => {
                if !token.is_whitespace() {
                    tokens.push(token);
                }
                text = rest;
            },
            None => {
                return tokens;
            },
        }
    }
}

} // verus!
