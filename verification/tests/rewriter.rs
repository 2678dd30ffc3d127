use phone_a_friend::errors::Diagnostic;
use phone_a_friend::rewrite::{rewrite_step, StepResult};
use phone_a_friend::tokens::{Delim, Token};

fn ident(text: &str, pos: u64) -> Token {
    Token::Ident(text.to_string(), pos)
}

fn lit(raw: &str, pos: u64) -> Token {
    Token::Lit(raw.to_string(), pos)
}

fn punct(c: char, pos: u64) -> Token {
    Token::Punct(c, pos)
}

fn group(d: Delim, children: Vec<Token>, pos: u64) -> Token {
    Token::Group(d, children, pos)
}

fn marker(pos: u64) -> Token {
    ident("PhoneAFriend", pos)
}

/// Runs the resumable walk to completion against a question-to-answer
/// stub, the way the network driver does.
fn resolve_all(input: &Vec<Token>, stub: &dyn Fn(&str) -> String) -> Result<Vec<Token>, Diagnostic> {
    let mut answers: Vec<String> = vec![];
    loop {
        match rewrite_step(input, &answers) {
            StepResult::Done(out) => return Ok(out),
            StepResult::Need(q, _pos) => answers.push(stub(&q)),
            StepResult::Fail(d) => return Err(d),
        }
    }
}

fn expect_fail(input: &Vec<Token>, answers: &Vec<String>) -> Diagnostic {
    match rewrite_step(input, answers) {
        StepResult::Fail(d) => d,
        StepResult::Done(_) => panic!("expected a failure, got a rewritten tree"),
        StepResult::Need(q, _) => panic!("expected a failure, got a question: {q}"),
    }
}

#[test]
fn no_markers_is_identity() {
    let input = vec![
        ident("struct", 1),
        ident("Point", 2),
        group(
            Delim::Brace,
            vec![
                ident("x", 4),
                punct(':', 5),
                ident("u32", 6),
                punct(',', 7),
                group(Delim::Paren, vec![lit("\"nested\"", 9)], 8),
            ],
            3,
        ),
        punct(';', 10),
    ];
    let out = resolve_all(&input, &|_| panic!("no question expected")).unwrap();
    assert_eq!(out, input);
}

#[test]
fn marker_replaced_by_answer_identifier() {
    let input = vec![
        ident("a", 1),
        marker(2),
        group(Delim::Paren, vec![lit("\"q?\"", 3)], 4),
        punct(';', 5),
    ];
    let out = resolve_all(&input, &|q| {
        assert_eq!(q, "q?");
        "A".to_string()
    })
    .unwrap();
    let expected = vec![ident("a", 1), ident("A", 4), punct(';', 5)];
    assert_eq!(out, expected);
}

#[test]
fn nesting_depth_and_delimiters_preserved() {
    let site = vec![marker(10), group(Delim::Paren, vec![lit("\"deep?\"", 11)], 12)];
    let level1 = group(Delim::Paren, site, 3);
    let level2 = group(Delim::Bracket, vec![level1], 2);
    let level3 = group(Delim::Brace, vec![level2], 1);
    let input = vec![level3];
    let out = resolve_all(&input, &|_| "Answer".to_string()).unwrap();
    let expected = vec![group(
        Delim::Brace,
        vec![group(
            Delim::Bracket,
            vec![group(Delim::Paren, vec![ident("Answer", 12)], 3)],
            2,
        )],
        1,
    )];
    assert_eq!(out, expected);
}

#[test]
fn empty_argument_group_is_rejected() {
    let input = vec![marker(1), group(Delim::Paren, vec![], 9)];
    let d = expect_fail(&input, &vec![]);
    assert_eq!(d.message, "expected the question string, found nothing");
    assert_eq!(d.pos, 9);
}

#[test]
fn two_item_argument_group_is_rejected_at_second_item() {
    let input = vec![
        marker(1),
        group(Delim::Paren, vec![lit("\"a\"", 3), lit("\"b\"", 4)], 2),
    ];
    let d = expect_fail(&input, &vec![]);
    assert_eq!(
        d.message,
        "expected a single string literal here, found more than one item"
    );
    assert_eq!(d.pos, 4);
}

#[test]
fn non_literal_argument_is_rejected() {
    let input = vec![marker(1), group(Delim::Paren, vec![punct('!', 5)], 2)];
    let d = expect_fail(&input, &vec![]);
    assert_eq!(d.message, "expected a single string literal here");
    assert_eq!(d.pos, 5);
}

#[test]
fn non_string_literal_argument_is_rejected() {
    let input = vec![marker(1), group(Delim::Paren, vec![lit("17", 6)], 2)];
    let d = expect_fail(&input, &vec![]);
    assert_eq!(d.message, "expected a string literal here");
    assert_eq!(d.pos, 6);
}

#[test]
fn punctuation_after_marker_is_rejected() {
    let input = vec![marker(1), punct(',', 8)];
    let d = expect_fail(&input, &vec![]);
    assert_eq!(d.message, "expected the question argument at this position");
    assert_eq!(d.pos, 8);
}

#[test]
fn identifier_after_marker_is_rejected() {
    let input = vec![marker(1), ident("oops", 7)];
    let d = expect_fail(&input, &vec![]);
    assert_eq!(d.message, "expected the question argument at this position");
    assert_eq!(d.pos, 7);
}

#[test]
fn dangling_marker_at_end_of_input_is_dropped() {
    let input = vec![ident("before", 1), marker(2)];
    let out = resolve_all(&input, &|_| panic!("no question expected")).unwrap();
    assert_eq!(out, vec![ident("before", 1)]);
}

#[test]
fn question_text_is_unescaped_literal_value() {
    let input = vec![marker(1), group(Delim::Paren, vec![lit("\"x\\n?\"", 3)], 2)];
    match rewrite_step(&input, &vec![]) {
        StepResult::Need(q, pos) => {
            assert_eq!(q, "x\n?");
            assert_eq!(pos, 2);
        }
        _ => panic!("expected the walk to stop at the unanswered question"),
    }
}

#[test]
fn escape_cut_short_by_a_wide_character_is_no_string_literal() {
    // Three characters: a quote, a backslash, and a two-byte character;
    // the argument must be rejected like any non-string literal, with
    // no answer asked for.
    let input = vec![marker(1), group(Delim::Paren, vec![lit("\"\\é", 6)], 2)];
    let d = expect_fail(&input, &vec![]);
    assert_eq!(d.message, "expected a string literal here");
    assert_eq!(d.pos, 6);
}

#[test]
fn wide_characters_without_escapes_decode_normally() {
    let input = vec![marker(1), group(Delim::Paren, vec![lit("\"é?\"", 3)], 2)];
    match rewrite_step(&input, &vec![]) {
        StepResult::Need(q, pos) => {
            assert_eq!(q, "é?");
            assert_eq!(pos, 2);
        }
        _ => panic!("expected the walk to stop at the unanswered question"),
    }
}

#[test]
fn escaped_literal_ending_in_ascii_decodes_normally() {
    let input = vec![marker(1), group(Delim::Paren, vec![lit("\"caf\\u{e9}?\"", 3)], 2)];
    match rewrite_step(&input, &vec![]) {
        StepResult::Need(q, pos) => {
            assert_eq!(q, "café?");
            assert_eq!(pos, 2);
        }
        _ => panic!("expected the walk to stop at the unanswered question"),
    }
}

#[test]
fn argument_group_may_use_any_delimiter() {
    let input = vec![marker(1), group(Delim::Brace, vec![lit("\"q?\"", 3)], 2)];
    let out = resolve_all(&input, &|_| "T".to_string()).unwrap();
    assert_eq!(out, vec![ident("T", 2)]);
}

#[test]
fn earlier_markers_are_resolved_before_a_later_malformed_site_fails() {
    let input = vec![
        marker(1),
        group(Delim::Paren, vec![lit("\"q1\"", 3)], 2),
        marker(4),
        group(Delim::Paren, vec![lit("\"a\"", 6), lit("\"b\"", 7)], 5),
    ];
    let mut questions: Vec<String> = vec![];
    let mut answers: Vec<String> = vec![];
    let d = loop {
        match rewrite_step(&input, &answers) {
            StepResult::Done(_) => panic!("expected the malformed site to fail"),
            StepResult::Need(q, _) => {
                questions.push(q);
                answers.push("A".to_string());
            }
            StepResult::Fail(d) => break d,
        }
    };
    assert_eq!(questions, vec!["q1".to_string()]);
    assert_eq!(
        d.message,
        "expected a single string literal here, found more than one item"
    );
    assert_eq!(d.pos, 7);
}

#[test]
fn answers_consumed_in_encounter_order_end_to_end() {
    let input = vec![
        ident("Point", 1),
        group(
            Delim::Brace,
            vec![
                ident("x", 3),
                punct(':', 4),
                marker(5),
                group(Delim::Paren, vec![lit("\"x?\"", 7)], 6),
                punct(',', 8),
                ident("y", 9),
                punct(':', 10),
                marker(11),
                group(Delim::Paren, vec![lit("\"y?\"", 13)], 12),
            ],
            2,
        ),
    ];
    let out = resolve_all(&input, &|q| match q {
        "x?" => "f32".to_string(),
        "y?" => "f64".to_string(),
        other => panic!("unexpected question: {other}"),
    })
    .unwrap();
    let expected = vec![
        ident("Point", 1),
        group(
            Delim::Brace,
            vec![
                ident("x", 3),
                punct(':', 4),
                ident("f32", 6),
                punct(',', 8),
                ident("y", 9),
                punct(':', 10),
                ident("f64", 12),
            ],
            2,
        ),
    ];
    assert_eq!(out, expected);
}
