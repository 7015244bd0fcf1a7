//! Tokens of the language, and the lexer for number literals.
use vstd::prelude::*;

verus! {

/// A token of source text.
#[derive(Debug, PartialEq)]
pub enum Token {
    /// A number literal, with its text
    NumberLiteral(String),
    /// A double-quoted string literal
    StringLiteral,
    /// A backtick template literal
    TemplateLiteral,
    /// `if`
    If,
    /// `else`
    Else,
    /// `while`
    While,
    /// `for`
    For,
    /// `in`
    In,
    /// `break`
    Break,
    /// `continue`
    Continue,
    /// `return`
    Return,
    /// `function`
    Function,
    /// `local`
    Local,
    /// `nil`
    Nil,
    /// `true`
    True,
    /// `false`
    False,
    /// `and`
    And,
    /// `or`
    Or,
    /// `not`
    Not,
    /// `+`
    Plus,
    /// `-`
    Minus,
    /// `*`
    Asterisk,
    /// `/`
    Slash,
    /// `%`
    Percent,
    /// `^`
    Caret,
    /// `#`
    Hash,
    /// `==`
    DoubleEquals,
    /// `~=`
    TildeEquals,
    /// `<`
    RightAngleBracket,
    /// `>`
    LeftAngleBracket,
    /// `<=`
    RightAngleBracketEquals,
    /// `>=`
    LeftAngleBracketEquals,
    /// `=`
    Equals,
    /// `(`
    LeftParenthesis,
    /// `)`
    RightParenthesis,
    /// `{`
    LeftCurlyBracket,
    /// `}`
    RightCurlyBracket,
    /// `[`
    LeftSquareBracket,
    /// `]`
    RightSquareBracket,
    /// `,`
    Comma,
    /// `.`
    Dot,
    /// `:`
    Colon,
    /// `;`
    Semicolon,
    /// `...`
    Ellipsis,
}

/// Integers: `1`, `1_000`.
pub const INTEGER_PATTERN: &'static str = r"^(?:\d[_\d]*)";

/// Decimals without an integer part: `.5`, `.1_0`.
pub const DECIMAL_PATTERN: &'static str = r"^(?:\.\d[_\d]*)";

/// Floats: `1.5`, `1._`, `12.12_`.
pub const FLOAT_PATTERN: &'static str = r"^(?:\d[_\d]*\.[_\d]*)";

/// Scientific notation: `1.e5`, `12.32_e1_0`, `1.5E-3`.
pub const SCIENTIFIC_PATTERN: &'static str = r"^(?:\d[_\d]*\.[_\d]*[eE][\-\+]?[_\d]*\d)";

/// Hexadecimal: `0x1F`, `0_x_ff`.
pub const HEX_PATTERN: &'static str = r"^(?:0_*[xX][_\da-fA-F]*[\da-fA-F][_\da-fA-F]*)";

/// Binary: `0b1`, `0b_1_001__`.
pub const BINARY_PATTERN: &'static str = r"^(?:0_*[bB][_01]*[01][_01]*)";

/// The end (a byte offset) and the text of the leftmost-first match of the regular
/// expression `pattern` in `haystack`; none when there is no match or when `pattern` is not
/// a regular expression.
pub uninterp spec fn regex_match(pattern: Seq<char>, haystack: Seq<char>) -> Option<(nat, Seq<char>)>;

/// Relies on `Regex::new` and `Regex::find` of regex: the pattern is compiled, and the end
/// and the text of the leftmost-first match are returned; nothing when there is no match or
/// the pattern does not compile.
#[verifier::external_body]
fn find_match(pattern: &str, haystack: &str) -> (r: Option<(usize, String)>)
    ensures
        r matches Some((end, text)) ==> regex_match(pattern@, haystack@) == Some(
            (end as nat, text@),
        ),
        r is None ==> regex_match(pattern@, haystack@) is None,
{
    match regex::Regex::new(pattern) {
        Ok(re) => re.find(haystack).map(|m| (m.end(), m.as_str().to_string())),
        Err(_) => None,
    }
}

/// The longest match among `found` (the one that ends furthest); of equally long matches,
/// the earliest.
pub open spec fn longest_some(found: Seq<Option<(nat, Seq<char>)>>) -> Option<(nat, Seq<char>)>
    decreases found.len(),
{
    if found.len() == 0 {
        None
    } else {
        let earlier = longest_some(found.drop_last());
        match found.last() {
            None => earlier,
            Some(m) => match earlier {
                Some(best) => if m.0 > best.0 {
                    Some(m)
                } else {
                    Some(best)
                },
                None => Some(m),
            },
        }
    }
}

/// A match as plain values: its end and its text.
pub open spec fn match_view(found: Option<(usize, String)>) -> Option<(nat, Seq<char>)> {
    match found {
        Some((end, text)) => Some((end as nat, text@)),
        None => None,
    }
}

/// The longest match of `patterns` in `haystack`; of equally long ones, that of the earliest
/// pattern.
pub open spec fn longest_match(patterns: Seq<Seq<char>>, haystack: Seq<char>) -> Option<
    (nat, Seq<char>),
> {
    longest_some(patterns.map_values(|p: Seq<char>| regex_match(p, haystack)))
}

/// Whether `r` is the number token for `found`: the same end and text, or none for none.
pub open spec fn is_number_token(r: Option<(usize, Token)>, found: Option<(nat, Seq<char>)>) -> bool {
    match found {
        Some((end, text)) => (r matches Some((n, token)) && n == end && (token matches Token::NumberLiteral(
            t,
        ) && t@ == text)),
        None => r is None,
    }
}

/// Returns the number token for the longest match among `found` (of equally long matches,
/// the earliest); none when nothing matched.
pub fn longest_number(found: Vec<Option<(usize, String)>>) -> (r: Option<(usize, Token)>)
    ensures
        is_number_token(r, longest_some(found@.map_values(|m: Option<(usize, String)>| match_view(m)))),
{
    let ghost views = found@.map_values(|m: Option<(usize, String)>| match_view(m));
    let mut best: Option<usize> = None;
    let mut i: usize = 0;
    while i < found.len()
        invariant
            i <= found.len(),
            views == found@.map_values(|m: Option<(usize, String)>| match_view(m)),
            match best {
                Some(k) => k < i && views[k as int] is Some && longest_some(views.take(i as int))
                    == views[k as int],
                None => longest_some(views.take(i as int)) is None,
            },
        decreases found.len() - i,
    {
        proof {
            assert(views.take(i + 1).drop_last() =~= views.take(i as int));
        }
        match &found[i] {
            Some((end, _)) => {
                let longer = match best {
                    Some(k) => match &found[k] {
                        Some((best_end, _)) => *end > *best_end,
                        None => false,
                    },
                    None => true,
                };
                if longer {
                    best = Some(i);
                }
            },
            None => {},
        }
        i = i + 1;
    }
    assert(views.take(i as int) =~= views);
    match best {
        Some(k) => match &found[k] {
            Some((end, text)) => Some((*end, Token::NumberLiteral(text.clone()))),
            None => None,
        },
        None => None,
    }
}

/// The number patterns, in the order that settles matches of equal length: integer,
/// decimal, float, scientific, hexadecimal, binary.
pub open spec fn number_patterns() -> Seq<Seq<char>> {
    seq![
        INTEGER_PATTERN@,
        DECIMAL_PATTERN@,
        FLOAT_PATTERN@,
        SCIENTIFIC_PATTERN@,
        HEX_PATTERN@,
        BINARY_PATTERN@,
    ]
}

/// Lexes a number literal at the start of a text. Each pattern is anchored at the start;
/// the patterns are compiled when a text is lexed.
pub struct NumberLexer {
    integer: String,
    decimal: String,
    float: String,
    scientific: String,
    hex: String,
    bin: String,
}

impl NumberLexer {
    /// The patterns, in the order that settles matches of equal length.
    pub closed spec fn spec_patterns(&self) -> Seq<Seq<char>> {
        seq![self.integer@, self.decimal@, self.float@, self.scientific@, self.hex@, self.bin@]
    }

    /// Constructs the lexer with the number patterns of the language.
    pub fn new() -> (r: Self)
        ensures
            r.spec_patterns() == number_patterns(),
    {
        NumberLexer {
            integer: INTEGER_PATTERN.to_string(),
            decimal: DECIMAL_PATTERN.to_string(),
            float: FLOAT_PATTERN.to_string(),
            scientific: SCIENTIFIC_PATTERN.to_string(),
            hex: HEX_PATTERN.to_string(),
            bin: BINARY_PATTERN.to_string(),
        }
    }

    /// Returns the length in bytes and the token of the number literal at the start of `s`:
    /// the longest match of the patterns (of equally long ones, that of the earlier pattern),
    /// none when no pattern matches.
    pub fn lex(&self, s: &str) -> (r: Option<(usize, Token)>)
        ensures
            is_number_token(r, longest_match(self.spec_patterns(), s@)),
    {
        let patterns = [&self.integer, &self.decimal, &self.float, &self.scientific, &self.hex, &self.bin];
        let ghost matches = self.spec_patterns().map_values(|p: Seq<char>| regex_match(p, s@));
        let mut found: Vec<Option<(usize, String)>> = Vec::new();
        let mut i: usize = 0;
        assert(matches.len() == 6);
        while i < 6
            invariant
                i <= 6,
                matches.len() == 6,
                matches == self.spec_patterns().map_values(|p: Seq<char>| regex_match(p, s@)),
                forall|k: int| 0 <= k < 6 ==> (#[trigger] patterns@[k])@ == self.spec_patterns()[k],
                found@.map_values(|m: Option<(usize, String)>| match_view(m)) == matches.take(i as int),
            decreases 6 - i,
        {
            let m = find_match(patterns[i].as_str(), s);
            let ghost before = found@;
            assert(match_view(m) == matches[i as int]);
            found.push(m);
            proof {
                assert(found@ == before.push(m));
                assert(found@.map_values(|m: Option<(usize, String)>| match_view(m)) =~= before.map_values(
                    |m: Option<(usize, String)>| match_view(m),
                ).push(match_view(m)));
                assert(matches.take(i + 1) =~= matches.take(i as int).push(matches[i as int]));
                assert(found@.map_values(|m: Option<(usize, String)>| match_view(m)) =~= matches.take(i + 1));
            }
            i = i + 1;
        }
        assert(matches.take(6) =~= matches);
        longest_number(found)
    }
}

} // verus!
