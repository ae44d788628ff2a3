use wingman::terminal::{is_exit_code, parse_prompt, PromptStatus};

fn test_is_exit_code(input: &str, expected: bool) {
    assert_eq!(is_exit_code(input), expected);
    assert_eq!(is_exit_code(input.to_uppercase().as_str()), expected);
    assert_eq!(is_exit_code(input.to_lowercase().as_str()), expected);
}

#[test]
fn test_is_exit_code_q() {
    test_is_exit_code("q", true);
}

#[test]
fn test_is_exit_code_quit() {
    test_is_exit_code("quit", true);
}

#[test]
fn test_is_exit_code_random() {
    test_is_exit_code("random", false);
}

#[test]
fn exit_code_in_mixed_case() {
    assert!(is_exit_code("Q"));
    assert!(is_exit_code("QuIt"));
    assert!(is_exit_code("qUIT"));
}

#[test]
fn exit_code_is_the_whole_word() {
    assert!(!is_exit_code(""));
    assert!(!is_exit_code("qu"));
    assert!(!is_exit_code("quit "));
    assert!(!is_exit_code(" q"));
    assert!(!is_exit_code("quits"));
    assert!(!is_exit_code("qq"));
}

#[test]
fn exit_code_folds_ascii_letters_only() {
    // A full-width `q` is no `q`, and the dotted capital `I` is no `i`.
    assert!(!is_exit_code("\u{ff51}"));
    assert!(!is_exit_code("\u{ff31}uit"));
    assert!(!is_exit_code("qu\u{130}t"));
}

#[test]
fn parse_prompt_exit_words() {
    assert!(matches!(parse_prompt("q"), Some(PromptStatus::Exit)));
    assert!(matches!(parse_prompt("quit\n"), Some(PromptStatus::Exit)));
    assert!(matches!(parse_prompt("  QUIT \r\n"), Some(PromptStatus::Exit)));
    assert!(matches!(parse_prompt("\tQ\t"), Some(PromptStatus::Exit)));
}

#[test]
fn parse_prompt_empty_line_asks_again() {
    assert!(parse_prompt("").is_none());
    assert!(parse_prompt("\n").is_none());
    assert!(parse_prompt("   \t \r\n").is_none());
    assert!(parse_prompt("\u{a0}\u{2003}\u{3000}").is_none());
}

#[test]
fn parse_prompt_trims_the_prompt() {
    match parse_prompt("  hello world \n") {
        Some(PromptStatus::Success(prompt)) => assert_eq!(prompt, "hello world"),
        other => panic!("unexpected status: {:?}", other),
    }
}

#[test]
fn parse_prompt_keeps_inner_whitespace() {
    match parse_prompt("\u{2028}tell me\ta  story\u{85}") {
        Some(PromptStatus::Success(prompt)) => assert_eq!(prompt, "tell me\ta  story"),
        other => panic!("unexpected status: {:?}", other),
    }
}

#[test]
fn parse_prompt_exit_word_inside_a_prompt() {
    match parse_prompt("quit smoking\n") {
        Some(PromptStatus::Success(prompt)) => assert_eq!(prompt, "quit smoking"),
        other => panic!("unexpected status: {:?}", other),
    }
}

#[test]
fn parse_prompt_zero_width_space_is_no_whitespace() {
    match parse_prompt("\u{200b}") {
        Some(PromptStatus::Success(prompt)) => assert_eq!(prompt, "\u{200b}"),
        other => panic!("unexpected status: {:?}", other),
    }
}

fn has_white_space_property(c: char) -> bool {
    matches!(
        c,
        '\u{9}'..='\u{d}'
            | ' '
            | '\u{85}'
            | '\u{a0}'
            | '\u{1680}'
            | '\u{2000}'..='\u{200a}'
            | '\u{2028}'
            | '\u{2029}'
            | '\u{202f}'
            | '\u{205f}'
            | '\u{3000}'
    )
}

#[test]
fn every_single_character_line() {
    for c in '\u{0}'..=char::MAX {
        let line = c.to_string();
        match parse_prompt(&line) {
            None => assert!(has_white_space_property(c), "{:?}", c),
            Some(PromptStatus::Exit) => assert!(c == 'q' || c == 'Q', "{:?}", c),
            Some(PromptStatus::Success(prompt)) => {
                assert!(!has_white_space_property(c) && c != 'q' && c != 'Q', "{:?}", c);
                assert_eq!(prompt, line);
            }
        }
    }
}

#[test]
fn every_character_around_a_prompt() {
    for c in '\u{0}'..=char::MAX {
        let line = format!("{}ab{}", c, c);
        let expected = if has_white_space_property(c) { "ab".to_string() } else { line.clone() };
        match parse_prompt(&line) {
            Some(PromptStatus::Success(prompt)) => assert_eq!(prompt, expected),
            other => panic!("unexpected status for {:?}: {:?}", c, other),
        }
    }
}

#[test]
fn every_character_in_place_of_a_letter() {
    for c in '\u{0}'..=char::MAX {
        assert_eq!(is_exit_code(&format!("{}uit", c)), c == 'q' || c == 'Q', "{:?}", c);
        assert_eq!(is_exit_code(&format!("qu{}t", c)), c == 'i' || c == 'I', "{:?}", c);
    }
}
