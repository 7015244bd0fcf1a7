use luna::lexer::{NumberLexer, Token};

fn lex(s: &str) -> Option<(usize, Token)> {
    NumberLexer::new().lex(s)
}

#[test]
fn integers() {
    assert_eq!(lex("123 + 4"), Some((3, Token::NumberLiteral("123".to_string()))));
    assert_eq!(lex("1_000_000"), Some((9, Token::NumberLiteral("1_000_000".to_string()))));
}

#[test]
fn decimals() {
    assert_eq!(lex(".5_0)"), Some((4, Token::NumberLiteral(".5_0".to_string()))));
}

#[test]
fn longest_literal_wins() {
    let t = |text: &str| Token::NumberLiteral(text.to_string());
    assert_eq!(lex("1.5"), Some((3, t("1.5"))));
    assert_eq!(lex("12.12_ "), Some((6, t("12.12_"))));
    assert_eq!(lex("1.5e3"), Some((5, t("1.5e3"))));
    assert_eq!(lex("1._e-1_0)"), Some((8, t("1._e-1_0"))));
    assert_eq!(lex("0x1F,"), Some((4, t("0x1F"))));
    assert_eq!(lex("0_X_ff"), Some((6, t("0_X_ff"))));
    assert_eq!(lex("0b10_1 "), Some((6, t("0b10_1"))));
    assert_eq!(lex("0b2"), Some((1, t("0"))));
}

#[test]
fn no_number_at_the_start() {
    assert_eq!(lex("x1"), None);
    assert_eq!(lex(""), None);
    assert_eq!(lex(" 1"), None);
    assert_eq!(lex("."), None);
}

#[test]
fn longest_number_takes_the_longest_match() {
    let found = vec![None, Some((2, "12".to_string())), Some((3, "123".to_string())), None];
    assert_eq!(luna::lexer::longest_number(found), Some((3, Token::NumberLiteral("123".to_string()))));
    let tied = vec![Some((2, "ab".to_string())), Some((2, "cd".to_string())), Some((1, "e".to_string()))];
    assert_eq!(luna::lexer::longest_number(tied), Some((2, Token::NumberLiteral("ab".to_string()))));
    assert_eq!(luna::lexer::longest_number(vec![None, None]), None);
    assert_eq!(luna::lexer::longest_number(vec![]), None);
}
