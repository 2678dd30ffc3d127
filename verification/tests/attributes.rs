use phone_a_friend::attrs::{extract_attrs, parse_attrs};
use phone_a_friend::config::read_config;
use phone_a_friend::tokens::{Delim, Token};

fn ident(text: &str, pos: u64) -> Token {
    Token::Ident(text.to_string(), pos)
}

fn lit(raw: &str, pos: u64) -> Token {
    Token::Lit(raw.to_string(), pos)
}

fn punct(c: char, pos: u64) -> Token {
    Token::Punct(c, pos)
}

#[test]
fn extract_splits_off_the_leading_bracket_group() {
    let input = vec![
        Token::Group(Delim::Bracket, vec![ident("token", 2)], 1),
        ident("body", 3),
        punct(';', 4),
    ];
    let (attrs, rest) = extract_attrs(input).unwrap();
    assert_eq!(attrs, vec![ident("token", 2)]);
    assert_eq!(rest, vec![ident("body", 3), punct(';', 4)]);
}

#[test]
fn extract_rejects_input_without_a_bracket_group() {
    assert!(extract_attrs(vec![]).is_none());
    assert!(extract_attrs(vec![ident("body", 1)]).is_none());
    let paren = vec![Token::Group(Delim::Paren, vec![], 1)];
    assert!(extract_attrs(paren).is_none());
}

#[test]
fn scan_collects_pairs_and_ignores_commas() {
    let attrs = vec![
        ident("token", 1),
        punct('=', 2),
        lit("\"t\"", 3),
        punct(',', 4),
        ident("chat_id", 5),
        punct('=', 6),
        lit("7", 7),
    ];
    let map = parse_attrs(&attrs).unwrap();
    assert_eq!(map.len(), 2);
    assert_eq!(map[0].name, "token");
    assert_eq!(map[0].raw, "\"t\"");
    assert_eq!(map[0].pos, 3);
    assert_eq!(map[1].name, "chat_id");
    assert_eq!(map[1].raw, "7");
}

#[test]
fn repeated_attribute_keeps_the_last_value() {
    let attrs = vec![
        ident("token", 1),
        punct('=', 2),
        lit("\"first\"", 3),
        ident("chat_id", 4),
        punct('=', 5),
        lit("7", 6),
        ident("token", 7),
        punct('=', 8),
        lit("\"second\"", 9),
    ];
    let map = parse_attrs(&attrs).unwrap();
    let (credential, chat_id) = read_config(&map).unwrap();
    assert_eq!(credential, "second");
    assert_eq!(chat_id, 7);
}

#[test]
fn scan_rejects_each_misplaced_token() {
    let two_names = vec![ident("a", 1), ident("b", 2)];
    assert_eq!(parse_attrs(&two_names).unwrap_err(), "Unexpected ident");

    let stray_equals = vec![punct('=', 1)];
    assert_eq!(parse_attrs(&stray_equals).unwrap_err(), "Unexpected equals");

    let stray_literal = vec![lit("\"v\"", 1)];
    assert_eq!(parse_attrs(&stray_literal).unwrap_err(), "Unexpected literal");

    let group = vec![Token::Group(Delim::Paren, vec![], 1)];
    assert_eq!(parse_attrs(&group).unwrap_err(), "Unexpected group");
}

#[test]
fn dangling_name_at_end_collects_nothing() {
    let attrs = vec![ident("token", 1), punct('=', 2)];
    let map = parse_attrs(&attrs).unwrap();
    assert!(map.is_empty());
}
