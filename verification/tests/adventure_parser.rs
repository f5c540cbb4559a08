use text_adventurers::adventure_parser::{find_arrow, is_space, line_is_rule, Lexer, Token};

fn text(line: &str, number: usize) -> Token {
    Token::Text(String::from(line), number)
}

fn jump(target: &str, number: usize) -> Token {
    Token::Action(String::from("GoTo"), vec![String::from(target)], number)
}

#[test]
pub fn every_line_gives_one_token() {
    let tokens = Lexer::lex("The Cave\n----\nIt is dark.\n\nLeave -> Forest\n");
    assert_eq!(
        tokens,
        vec![
            Token::Title(String::from("The Cave"), 0),
            text("----", 1),
            text("It is dark.", 2),
            text("", 3),
            jump(" Forest", 4),
        ]
    );
}

#[test]
pub fn a_rule_below_makes_a_title_of_any_line() {
    let tokens = Lexer::lex("a -> b\n  ----\t\n----\n");
    assert_eq!(
        tokens,
        vec![
            Token::Title(String::from("a -> b"), 0),
            Token::Title(String::from("  ----\t"), 1),
            text("----", 2),
        ]
    );
    assert_eq!(Lexer::lex("\n"), vec![text("", 0)]);
}

#[test]
pub fn a_jump_leads_to_what_stands_behind_its_first_arrow() {
    assert_eq!(Lexer::lex("->\n"), vec![jump("", 0)]);
    assert_eq!(Lexer::lex("a->b->c\n"), vec![jump("b", 0)]);
    assert_eq!(Lexer::lex("-->->x\n"), vec![jump("", 0)]);
    assert_eq!(Lexer::lex("a->-\n"), vec![jump("-", 0)]);
    assert_eq!(Lexer::lex("a-\n>\n"), vec![text("a-", 0), text(">", 1)]);
    assert_eq!(Lexer::lex("naar → daar -> hier\n"), vec![jump(" hier", 0)]);
}

#[test]
pub fn rules_are_four_dashes_with_white_space_around() {
    assert!(line_is_rule("----"));
    assert!(line_is_rule(" \t---- \r"));
    assert!(line_is_rule("\u{a0}----\u{3000}"));
    assert!(!line_is_rule("---"));
    assert!(!line_is_rule("-----"));
    assert!(!line_is_rule("-- --"));
    assert!(!line_is_rule("---- x"));
    assert!(!line_is_rule("x ----"));
    assert!(!line_is_rule(""));
    assert!(!line_is_rule("   "));
}

#[test]
pub fn white_space_is_what_trimming_takes_away() {
    for code in 0..0x3100u32 {
        if let Some(c) = char::from_u32(code) {
            assert_eq!(is_space(c), c.is_whitespace());
        }
    }
}

#[test]
pub fn arrows_are_found_from_a_position_on() {
    assert_eq!(find_arrow("a->b->c", 0), 1);
    assert_eq!(find_arrow("a->b->c", 1), 1);
    assert_eq!(find_arrow("a->b->c", 2), 4);
    assert_eq!(find_arrow("a->b->c", 5), 7);
    assert_eq!(find_arrow("a->b->c", 7), 7);
    assert_eq!(find_arrow("", 0), 0);
    assert_eq!(find_arrow("-", 0), 1);
    assert_eq!(find_arrow("é->", 0), 1);
}
