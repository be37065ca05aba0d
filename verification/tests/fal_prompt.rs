use space_recorder::fal::prompt::{parse_input, read_prompt_line, PromptLine};

#[test]
fn test_parse_input_regular_text_as_generate() {
    let cmd = parse_input("cyberpunk cityscape");
    assert_eq!(cmd, Some(PromptLine::Generate("cyberpunk cityscape".to_string())));
}

#[test]
fn test_parse_input_clear_command() {
    let cmd = parse_input("/clear");
    assert_eq!(cmd, Some(PromptLine::Clear));
}

#[test]
fn test_parse_input_clear_command_case_insensitive() {
    assert_eq!(parse_input("/CLEAR"), Some(PromptLine::Clear));
    assert_eq!(parse_input("/Clear"), Some(PromptLine::Clear));
}

#[test]
fn test_parse_input_empty_ignored() {
    assert_eq!(parse_input(""), None);
}

#[test]
fn test_parse_input_whitespace_only_ignored() {
    assert_eq!(parse_input("   "), None);
    assert_eq!(parse_input("\t"), None);
    assert_eq!(parse_input("\n"), None);
}

#[test]
fn test_parse_input_trims_whitespace() {
    let cmd = parse_input("  hello world  ");
    assert_eq!(cmd, Some(PromptLine::Generate("hello world".to_string())));
}

#[test]
fn test_parse_input_preserves_prompt_content() {
    let cmd = parse_input("neon lights & rain, cyberpunk 2077 style");
    assert_eq!(
        cmd,
        Some(PromptLine::Generate("neon lights & rain, cyberpunk 2077 style".to_string()))
    );
}

#[test]
fn test_parse_input_multiword_prompt() {
    let cmd = parse_input("a beautiful sunset over the ocean with palm trees");
    assert_eq!(
        cmd,
        Some(PromptLine::Generate("a beautiful sunset over the ocean with palm trees".to_string()))
    );
}

#[test]
fn test_parse_input_clear_with_extra_args_ignored() {
    let cmd = parse_input("/clear now please");
    assert_eq!(cmd, Some(PromptLine::Clear));
}

#[test]
fn prompt_opacity_value_is_handed_on() {
    assert_eq!(parse_input("/opacity 0.5"), Some(PromptLine::Opacity("0.5".to_string())));
    assert_eq!(parse_input("/opacity   0.75"), Some(PromptLine::Opacity("0.75".to_string())));
    assert_eq!(parse_input("/OPACITY abc"), Some(PromptLine::Opacity("abc".to_string())));
}

#[test]
fn prompt_opacity_without_value_asks_for_usage() {
    assert_eq!(read_prompt_line("/opacity"), Some(PromptLine::OpacityUsage));
    assert_eq!(read_prompt_line("  /opacity  "), Some(PromptLine::OpacityUsage));
}

#[test]
fn prompt_unknown_commands_are_reported_with_their_word() {
    assert_eq!(read_prompt_line("/unknown"), Some(PromptLine::UnknownCommand("/unknown".to_string())));
    assert_eq!(read_prompt_line("/foo bar"), Some(PromptLine::UnknownCommand("/foo".to_string())));
    assert_eq!(read_prompt_line("/"), Some(PromptLine::UnknownCommand("/".to_string())));
    assert_eq!(read_prompt_line("/Foo"), Some(PromptLine::UnknownCommand("/Foo".to_string())));
}

#[test]
fn test_parse_input_unknown_command() {
    assert_eq!(parse_input("/unknown"), None);
    assert_eq!(parse_input("/foo bar"), None);
}

#[test]
fn test_parse_input_slash_only() {
    let cmd = parse_input("/");
    assert_eq!(cmd, None);
}

#[test]
fn prompt_opacity_without_value_is_no_command() {
    assert_eq!(parse_input("/opacity"), None);
    assert_eq!(read_prompt_line("/opacity"), Some(PromptLine::OpacityUsage));
}
