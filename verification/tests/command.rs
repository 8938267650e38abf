use xpectate::command::{mark_whitespace, parse_command, split_words};

fn words(list: &[&str]) -> Vec<String> {
    list.iter().map(|w| w.to_string()).collect()
}

#[test]
fn a_command_is_split_at_spaces() {
    assert_eq!(parse_command("echo rebuilt"), words(&["echo", "rebuilt"]));
    assert_eq!(
        parse_command("npx tailwind -i /path -o /path"),
        words(&["npx", "tailwind", "-i", "/path", "-o", "/path"])
    );
}

#[test]
fn a_single_word_is_one_argument() {
    assert_eq!(parse_command("make"), words(&["make"]));
}

#[test]
fn surrounding_and_repeated_whitespace_yields_no_empty_argument() {
    assert_eq!(parse_command("  echo   rebuilt  "), words(&["echo", "rebuilt"]));
    assert_eq!(parse_command("\techo\n\nrebuilt\r\n"), words(&["echo", "rebuilt"]));
}

#[test]
fn an_empty_or_blank_command_has_no_arguments() {
    assert_eq!(parse_command(""), Vec::<String>::new());
    assert_eq!(parse_command("   \t \n"), Vec::<String>::new());
}

#[test]
fn quotes_do_not_group() {
    assert_eq!(parse_command("echo \"hello world\""), words(&["echo", "\"hello", "world\""]));
    assert_eq!(parse_command("a\\ b"), words(&["a\\", "b"]));
}

#[test]
fn whitespace_beyond_ascii_separates_too() {
    assert_eq!(parse_command("a\u{00A0}b\u{3000}c\u{2003}d"), words(&["a", "b", "c", "d"]));
    assert_eq!(parse_command("\u{0085}x\u{2028}"), words(&["x"]));
}

#[test]
fn characters_beyond_ascii_stay_in_their_argument() {
    assert_eq!(
        parse_command("\u{e9}cho r\u{e9}ussi \u{2713}"),
        words(&["\u{e9}cho", "r\u{e9}ussi", "\u{2713}"])
    );
    assert_eq!(parse_command("a\u{200B}b"), words(&["a\u{200B}b"]));
}

#[test]
fn arguments_hold_no_whitespace_and_are_not_empty() {
    for command in ["  a b  c ", "x", "", " \t", "one\ttwo\nthree   four"] {
        for argument in parse_command(command) {
            assert!(!argument.is_empty());
            assert!(!argument.chars().any(|c| c.is_whitespace()));
        }
    }
}

#[test]
fn parsing_agrees_with_split_whitespace() {
    let commands = [
        "",
        " ",
        "a",
        " a",
        "a ",
        "python -m http.server",
        "\t\tpwsh   -Command\n Get-ChildItem ",
        "a\u{00A0}b",
        "\u{1680}x\u{180E}y\u{205F}z",
        "tab\tseparated\u{000B}vertical\u{000C}feed",
    ];
    for command in commands {
        let expected: Vec<String> = command.split_whitespace().map(|w| w.to_string()).collect();
        assert_eq!(parse_command(command), expected);
    }
}

#[test]
fn whitespace_is_marked_character_by_character() {
    assert_eq!(mark_whitespace(""), Vec::<bool>::new());
    assert_eq!(mark_whitespace("a b"), vec![false, true, false]);
    assert_eq!(mark_whitespace(" \tx\n"), vec![true, true, false, true]);
    assert_eq!(mark_whitespace("\u{e9}\u{a0}\u{3000}z"), vec![false, true, true, false]);
}

#[test]
fn a_line_is_split_where_the_marks_say() {
    assert_eq!(split_words("a b", &vec![false, true, false]), words(&["a", "b"]));
    assert_eq!(split_words("a b", &vec![false, false, false]), words(&["a b"]));
    assert_eq!(split_words("a,b,,c", &vec![false, true, false, true, true, false]), words(&["a", "b", "c"]));
    assert_eq!(split_words("abc", &vec![true, true, true]), Vec::<String>::new());
    assert_eq!(split_words("abc", &vec![true, false, true]), words(&["b"]));
    assert_eq!(split_words("", &vec![]), Vec::<String>::new());
}

#[test]
fn characters_without_a_mark_do_not_separate() {
    assert_eq!(split_words("a b c", &vec![false, true]), words(&["a", "b c"]));
    assert_eq!(split_words("a b c", &vec![]), words(&["a b c"]));
    assert_eq!(split_words("ab", &vec![false, true, true, true]), words(&["a"]));
}

#[test]
fn marks_count_characters_not_bytes() {
    assert_eq!(
        split_words("\u{e9}-\u{6587}\u{4ef6}", &vec![false, true, false, false]),
        words(&["\u{e9}", "\u{6587}\u{4ef6}"])
    );
}

#[test]
fn the_ascii_whitespace_is_the_space_and_five_controls() {
    for code in 0u32..=0x7f {
        let c = char::from_u32(code).unwrap();
        let expected = c == ' ' || (0x09..=0x0d).contains(&code);
        assert_eq!(mark_whitespace(&c.to_string()), vec![expected], "U+{:04X}", code);
    }
}
