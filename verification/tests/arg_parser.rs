use se::arg_parser::{escape_string, string_to_arguments};

fn args(line: &str) -> Vec<String> {
    string_to_arguments(line)
}

fn texts(items: &[&str]) -> Vec<String> {
    items.iter().map(|s| s.to_string()).collect()
}

#[test]
fn an_empty_line_is_one_empty_argument() {
    assert_eq!(args(""), texts(&[""]));
}

#[test]
fn spaces_separate_arguments() {
    assert_eq!(args("run build"), texts(&["run", "build"]));
    assert_eq!(args("a b c"), texts(&["a", "b", "c"]));
}

#[test]
fn a_run_of_spaces_separates_once() {
    assert_eq!(args("a  b"), texts(&["a", "b"]));
    assert_eq!(args("run     build"), texts(&["run", "build"]));
    assert_eq!(args("a  b   c"), texts(&["a", "b", "c"]));
}

#[test]
fn a_line_of_spaces_only_is_one_empty_argument() {
    assert_eq!(args(" "), texts(&[""]));
    assert_eq!(args("   "), texts(&[""]));
}

#[test]
fn spaces_at_the_start_and_at_the_end_stand_for_no_argument() {
    assert_eq!(args(" a"), texts(&["a"]));
    assert_eq!(args("a "), texts(&["a"]));
    assert_eq!(args("   a b   "), texts(&["a", "b"]));
    assert_eq!(args(r"a\ "), texts(&[r"a\"]));
}

#[test]
fn a_pair_of_quotes_is_an_empty_argument() {
    assert_eq!(args(r#""""#), texts(&[""]));
    assert_eq!(args(r#"a "" b"#), texts(&["a", "", "b"]));
    assert_eq!(args(r#""" a"#), texts(&["", "a"]));
    assert_eq!(args(r#"a """#), texts(&["a", ""]));
    assert_eq!(args(r#"  ""  "#), texts(&[""]));
    assert_eq!(args(r#""" """#), texts(&["", ""]));
}

#[test]
fn quotes_toggle_and_keep_spaces() {
    assert_eq!(args(r#"a "b c" d"#), texts(&["a", "b c", "d"]));
    assert_eq!(args(r#""a b""#), texts(&["a b"]));
    assert_eq!(args(r#"a" "b"#), texts(&["a b"]));
    assert_eq!(args(r#"a"  "b"#), texts(&["a  b"]));
}

#[test]
fn an_unclosed_quote_runs_to_the_end() {
    assert_eq!(args(r#"a "b c"#), texts(&["a", "b c"]));
}

#[test]
fn one_backslash_escapes_a_quote() {
    assert_eq!(args(r#"a\"b"#), texts(&[r#"a"b"#]));
    assert_eq!(args(r#"a\"b c"#), texts(&[r#"a"b"#, "c"]));
}

#[test]
fn two_backslashes_before_a_quote_give_one_and_the_quote_toggles() {
    assert_eq!(args(r#"a\\"b""#), texts(&[r"a\b"]));
    assert_eq!(args(r#"a\\"b c""#), texts(&[r"a\b c"]));
}

#[test]
fn three_backslashes_before_a_quote_give_one_and_the_quote() {
    assert_eq!(args(r#"a\\\"b"#), texts(&[r#"a\"b"#]));
}

#[test]
fn four_backslashes_before_a_quote_give_two_and_the_quote_toggles() {
    assert_eq!(args(r#"a\\\\"b c""#), texts(&[r"a\\b c"]));
}

#[test]
fn backslashes_at_the_end_are_kept() {
    assert_eq!(args(r"a\\"), texts(&[r"a\\"]));
    assert_eq!(args(r"a\\\\"), texts(&[r"a\\\\"]));
    assert_eq!(args(r"\"), texts(&[r"\"]));
}

#[test]
fn backslashes_before_other_characters_are_kept() {
    assert_eq!(args(r"a\b\\c"), texts(&[r"a\b\\c"]));
    assert_eq!(args(r"a\ b"), texts(&[r"a\", "b"]));
    assert_eq!(args(r#""a\ b""#), texts(&[r"a\ b"]));
}

#[test]
fn only_the_space_character_separates() {
    assert_eq!(args("a\tb"), texts(&["a\tb"]));
    assert_eq!(args("a\nb"), texts(&["a\nb"]));
}

#[test]
fn characters_beyond_ascii_pass_through() {
    assert_eq!(args("grüße \"日本 語\""), texts(&["grüße", "日本 語"]));
}

#[test]
fn escape_leaves_plain_text_alone() {
    assert_eq!(escape_string(""), "");
    assert_eq!(escape_string("build"), "build");
    assert_eq!(escape_string(r"a\b"), r"a\b");
    assert_eq!(escape_string(r"ab\"), r"ab\");
    assert_eq!(escape_string(r"ab\\"), r"ab\\");
}

#[test]
fn escape_marks_quotes() {
    assert_eq!(escape_string(r#"a"b"#), r#"a\"b"#);
    assert_eq!(escape_string(r#"""#), r#"\""#);
}

#[test]
fn escape_doubles_backslashes_before_a_quote() {
    assert_eq!(escape_string(r#"a\"b"#), r#"a\\\"b"#);
    assert_eq!(escape_string(r#"a\\"b"#), r#"a\\\\\"b"#);
}

#[test]
fn escape_quotes_a_token_with_a_space() {
    assert_eq!(escape_string("a b"), r#""a b""#);
    assert_eq!(escape_string(" "), r#"" ""#);
    assert_eq!(escape_string(r#"a "b""#), r#""a \"b\"""#);
}

#[test]
fn escape_doubles_backslashes_before_the_closing_quote() {
    assert_eq!(escape_string(r"a b\"), r#""a b\\""#);
    assert_eq!(escape_string(r"a b\\"), r#""a b\\\\""#);
    assert_eq!(escape_string(r"a\ b"), r#""a\ b""#);
}

#[test]
fn an_escaped_token_reads_back_as_itself() {
    let samples = [
        "",
        "build",
        "a b",
        " ",
        "  ",
        r#"a"b"#,
        r#"""#,
        r#""""#,
        r"\",
        r"\\",
        r#"\""#,
        r#"\\""#,
        r#"a\"b c\"#,
        r#"a b\\"#,
        r#" \" \\" "#,
        r#"C:\Program Files\x\"#,
        "tab\there",
        "nul\0inside",
        "日本 語\\\"",
    ];
    for sample in samples {
        assert_eq!(args(&escape_string(sample)), texts(&[sample]), "for {:?}", sample);
    }
}

#[test]
fn every_short_token_reads_back_as_itself() {
    let alphabet = ['a', ' ', '"', '\\'];
    let mut tokens: Vec<String> = vec![String::new()];
    let mut start = 0;
    for _ in 0..6 {
        let end = tokens.len();
        for i in start..end {
            for c in alphabet {
                let mut longer = tokens[i].clone();
                longer.push(c);
                tokens.push(longer);
            }
        }
        start = end;
    }
    assert_eq!(tokens.len(), 5461);
    for token in &tokens {
        assert_eq!(args(&escape_string(token)), vec![token.clone()], "for {:?}", token);
    }
}
