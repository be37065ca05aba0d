use space_recorder::text::{join_strings, parse_u32, split_on_text, split_words, str_chars, trim_chars};

fn strings(v: Vec<Vec<char>>) -> Vec<String> {
    v.into_iter().map(|c| c.into_iter().collect()).collect()
}

#[test]
fn text_split_words_skips_runs_of_whitespace() {
    let w = split_words(&str_chars("  /opacity \t 0.5  "));
    assert_eq!(strings(w), vec!["/opacity".to_string(), "0.5".to_string()]);
    assert!(split_words(&str_chars("   ")).is_empty());
}

#[test]
fn text_split_on_text_keeps_empty_pieces() {
    let p = split_on_text(&str_chars("a, b,, c"), &str_chars(", "));
    assert_eq!(strings(p), vec!["a".to_string(), "b,".to_string(), "c".to_string()]);
    let q = split_on_text(&str_chars("xx"), &str_chars("x"));
    assert_eq!(strings(q), vec!["".to_string(), "".to_string(), "".to_string()]);
}

#[test]
fn text_trim_and_parse() {
    let t: String = trim_chars(&str_chars("  hi there \n")).into_iter().collect();
    assert_eq!(t, "hi there");
    assert_eq!(parse_u32(&str_chars("1920")), Some(1920));
    assert_eq!(parse_u32(&str_chars("4294967296")), None);
    assert_eq!(parse_u32(&str_chars("12a")), None);
    assert_eq!(parse_u32(&str_chars("")), None);
}

#[test]
fn text_join_strings() {
    let parts = vec!["a".to_string(), "b".to_string(), "c".to_string()];
    assert_eq!(join_strings(&parts, ";"), "a;b;c");
    assert_eq!(join_strings(&Vec::new(), ";"), "");
}
