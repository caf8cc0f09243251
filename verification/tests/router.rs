use mrsbfh::commands::router::{
    command_from, normalize, parse, parse_tokens, tokenize, ParsedCommand, COMMAND_PATTERN,
    WHITESPACE_PATTERN,
};
use mrsbfh::text::{
    decimal_string, drop_empty, mark_underscores, mark_white_space, same_text, split_at_marks,
    split_segments, split_words,
};

fn strings(texts: &[&str]) -> Vec<String> {
    texts.iter().map(|t| t.to_string()).collect()
}

fn parsed(body: &str) -> Option<(String, Vec<String>)> {
    parse(body).map(|ParsedCommand { command, args }| (command, args))
}

fn found(command: &str, args: &[&str]) -> Option<(String, Vec<String>)> {
    Some((
        command.to_string(),
        args.iter().map(|a| a.to_string()).collect(),
    ))
}

#[test]
fn patterns() {
    assert_eq!(WHITESPACE_PATTERN, r"\s+");
    assert_eq!(COMMAND_PATTERN, r"^!([\w-]+)");
}

#[test]
fn normalize_collapses_runs_of_white_space() {
    assert_eq!(normalize("a  b"), "a b");
    assert_eq!(normalize("a \t\n b"), "a b");
    assert_eq!(normalize("  !Hello_World   extra   args  "), " !Hello_World extra args ");
    assert_eq!(normalize("untouched"), "untouched");
    assert_eq!(normalize(""), "");
    assert_eq!(normalize("a\u{3000}\u{a0}b"), "a b");
}

#[test]
fn normalize_matches_the_regex_crate() {
    let re = regex::Regex::new(WHITESPACE_PATTERN).unwrap();
    for body in ["x   y", "\t!a\r\n b ", "no-space", "  ", "$1  $name"] {
        assert_eq!(normalize(body), re.replace_all(body, " "));
    }
}

#[test]
fn words_are_the_runs_between_white_space() {
    assert_eq!(split_words("  !Hello_World   extra   args  "), ["!Hello_World", "extra", "args"]);
    assert_eq!(split_words("one"), ["one"]);
    assert_eq!(split_words("a\tb\nc"), ["a", "b", "c"]);
    assert!(split_words("").is_empty());
    assert!(split_words(" \t \n").is_empty());
}

#[test]
fn words_match_the_standard_library() {
    for text in ["  a  b ", "x", "", "\u{2003}wide\u{2003}space ", "tab\tand\nline"] {
        let expected: Vec<String> = text.split_whitespace().map(|w| w.to_string()).collect();
        assert_eq!(split_words(text), expected);
    }
}

#[test]
fn segments_are_the_pieces_between_underscores() {
    assert_eq!(split_segments("hello_world"), ["hello", "world"]);
    assert_eq!(split_segments("hello"), ["hello"]);
    assert_eq!(split_segments(""), [""]);
    assert_eq!(split_segments("a__b"), ["a", "", "b"]);
    assert_eq!(split_segments("_a_"), ["", "a", ""]);
}

#[test]
fn segments_match_the_standard_library() {
    for name in ["hello_world", "", "_", "__x", "a_b_c_", "no underscore"] {
        let expected: Vec<String> = name.split('_').map(|w| w.to_string()).collect();
        assert_eq!(split_segments(name), expected);
    }
}

#[test]
fn command_token_names_a_command() {
    assert_eq!(command_from("!hello_world"), "hello_world");
    assert_eq!(command_from("!Hello_World"), "hello_world");
    assert_eq!(command_from("!HELP"), "help");
    assert_eq!(command_from("!h"), "h");
    assert_eq!(command_from("!he-lp_1"), "he-lp_1");
    assert_eq!(command_from("!help.me"), "help");
    assert_eq!(command_from("!Gr\u{fc}\u{df}e"), "gr\u{fc}\u{df}e");
}

#[test]
fn token_without_trigger_names_no_command() {
    assert_eq!(command_from("hello"), "");
    assert_eq!(command_from(""), "");
    assert_eq!(command_from("!"), "");
    assert_eq!(command_from("!!help"), "");
    assert_eq!(command_from("!.help"), "");
    assert_eq!(command_from("say!help"), "");
    assert_eq!(command_from("#help"), "");
}

#[test]
fn parse_reads_command_and_arguments() {
    assert_eq!(
        parsed("  !Hello_World   extra   args  "),
        found("hello_world", &["extra", "args"])
    );
    assert_eq!(parsed("!help"), found("help", &[]));
    assert_eq!(parsed("!Echo Keep  THE\tCase"), found("echo", &["Keep", "THE", "Case"]));
    assert_eq!(parsed("\n!hw\n"), found("hw", &[]));
}

#[test]
fn parse_of_a_body_without_words_yields_nothing() {
    assert_eq!(parsed(""), None);
    assert_eq!(parsed(" "), None);
    assert_eq!(parsed(" \t\r\n "), None);
}

#[test]
fn parse_of_a_body_without_command_yields_the_empty_command() {
    assert_eq!(parsed("hello world"), found("", &["world"]));
    assert_eq!(parsed("say !help"), found("", &["!help"]));
    assert_eq!(parsed("! help"), found("", &["help"]));
}

#[test]
fn decimal_numerals() {
    assert_eq!(decimal_string(0), "0");
    assert_eq!(decimal_string(7), "7");
    assert_eq!(decimal_string(10), "10");
    assert_eq!(decimal_string(42), "42");
    assert_eq!(decimal_string(1234567890), "1234567890");
    assert_eq!(decimal_string(u64::MAX), "18446744073709551615");
}

#[test]
fn same_text_compares_character_by_character() {
    assert!(same_text("help", "help"));
    assert!(same_text("", ""));
    assert!(!same_text("help", "Help"));
    assert!(!same_text("help", "hel"));
    assert!(!same_text("", " "));
}

#[test]
fn marks_stand_for_the_characters_by_position() {
    assert_eq!(mark_underscores("a_b__"), [false, true, false, true, true]);
    assert_eq!(mark_underscores(""), Vec::<bool>::new());
    assert_eq!(mark_white_space(" a\tb\u{a0}"), [true, false, true, false, true]);
    assert_eq!(mark_white_space("\u{e9}_"), [false, false]);
}

#[test]
fn split_at_marks_breaks_at_every_marked_character() {
    assert_eq!(split_at_marks("a b", &vec![false, true, false]), ["a", "b"]);
    assert_eq!(split_at_marks("abc", &vec![false, true, false]), ["a", "c"]);
    assert_eq!(split_at_marks("abc", &vec![true, true, true]), ["", "", "", ""]);
    assert_eq!(split_at_marks("abc", &vec![false, false, false]), ["abc"]);
    assert_eq!(split_at_marks("", &Vec::new()), [""]);
}

#[test]
fn split_at_marks_takes_missing_marks_as_unmarked() {
    assert_eq!(split_at_marks("abcd", &vec![false, true]), ["a", "cd"]);
    assert_eq!(split_at_marks("abcd", &Vec::new()), ["abcd"]);
    assert_eq!(split_at_marks("ab", &vec![false, false, true, true]), ["ab"]);
}

#[test]
fn drop_empty_keeps_the_order_of_the_rest() {
    assert_eq!(drop_empty(strings(&["", "a", "", "", "b", ""])), ["a", "b"]);
    assert_eq!(drop_empty(strings(&["", ""])), Vec::<String>::new());
    assert_eq!(drop_empty(strings(&["x"])), ["x"]);
    assert_eq!(drop_empty(Vec::new()), Vec::<String>::new());
}

#[test]
fn tokenize_normalises_and_splits() {
    assert_eq!(tokenize("  !Hello_World   extra   args  "), ["!Hello_World", "extra", "args"]);
    assert_eq!(tokenize("one"), ["one"]);
    assert!(tokenize("").is_empty());
    assert!(tokenize(" \n ").is_empty());
}

#[test]
fn parse_tokens_takes_the_first_word_as_command_token() {
    let parsed = parse_tokens(strings(&["!Echo", "A", "b"])).unwrap();
    assert_eq!(parsed.command, "echo");
    assert_eq!(parsed.args, ["A", "b"]);
    let parsed = parse_tokens(strings(&["hello", "!echo"])).unwrap();
    assert_eq!(parsed.command, "");
    assert_eq!(parsed.args, ["!echo"]);
    let parsed = parse_tokens(strings(&["!h"])).unwrap();
    assert_eq!(parsed.command, "h");
    assert!(parsed.args.is_empty());
    assert!(parse_tokens(Vec::new()).is_none());
}
