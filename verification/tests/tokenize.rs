use create_process_rust::commandline::{get_rest, parse_lp_cmd_line, Arg};

fn units(text: &str) -> Vec<u16> {
    text.encode_utf16().collect()
}

fn texts(args: &Vec<Arg>) -> Vec<String> {
    args.iter().map(|a| String::from_utf16(&a.arg).unwrap()).collect()
}

#[test]
fn empty_buffer_has_no_arguments() {
    let line: Vec<u16> = Vec::new();
    assert_eq!(parse_lp_cmd_line(&line, true).len(), 0);
    assert_eq!(parse_lp_cmd_line(&line, false).len(), 0);
}

#[test]
fn separators_collapse_after_the_first_token() {
    let line = units(" a   b ");
    let args = parse_lp_cmd_line(&line, true);
    assert_eq!(texts(&args), vec!["", "a", "b"]);
    assert_eq!(args[0].range, 0..0);
    assert_eq!(args[1].range, 1..2);
    assert_eq!(args[2].range, 5..6);
}

#[test]
fn program_quoted_argument_and_flag() {
    let line = units("prog.exe \"hello world\" --flag");
    let args = parse_lp_cmd_line(&line, true);
    assert_eq!(texts(&args), vec!["prog.exe", "hello world", "--flag"]);
    assert_eq!(args[0].range, 0..8);
    assert_eq!(args[0].raw, &line[0..8]);
    assert_eq!(args[1].range, 9..22);
    assert_eq!(args[1].raw, &units("\"hello world\"")[..]);
    assert_eq!(args[2].range, 23..29);
    assert_eq!(args[0].number, 0);
    assert_eq!(args[1].number, 1);
    assert_eq!(args[2].number, 2);
}

#[test]
fn two_backslashes_before_a_quote_halve_and_the_quote_opens() {
    let line = units("a\\\\\"b");
    let args = parse_lp_cmd_line(&line, false);
    assert_eq!(texts(&args), vec!["a\\b"]);
    assert_eq!(args[0].range, 0..5);
}

#[test]
fn odd_backslashes_before_a_quote_escape_it() {
    let line = units("a\\\\\\\"b c");
    let args = parse_lp_cmd_line(&line, false);
    assert_eq!(texts(&args), vec!["a\\\"b", "c"]);
}

#[test]
fn backslashes_before_other_units_stay() {
    let line = units("a\\\\b \\\\");
    let args = parse_lp_cmd_line(&line, false);
    assert_eq!(texts(&args), vec!["a\\\\b", "\\\\"]);
}

#[test]
fn two_quotes_inside_quotes_give_one_quote() {
    let line = units("\"a\"\"b\" c");
    let args = parse_lp_cmd_line(&line, false);
    assert_eq!(texts(&args), vec!["a\"b", "c"]);
}

#[test]
fn space_inside_quotes_is_taken_as_it_is() {
    let line = units("\"a\tb c\"");
    let args = parse_lp_cmd_line(&line, false);
    assert_eq!(texts(&args), vec!["a\tb c"]);
}

#[test]
fn unterminated_quote_yields_a_token_even_if_empty() {
    let line = units("a \"");
    let args = parse_lp_cmd_line(&line, false);
    assert_eq!(texts(&args), vec!["a", ""]);
    assert_eq!(args[1].range, 2..3);
}

#[test]
fn closed_empty_quotes_at_the_end_leave_no_token() {
    let line = units("a \"\"");
    let args = parse_lp_cmd_line(&line, false);
    assert_eq!(texts(&args), vec!["a"]);
}

#[test]
fn closed_empty_quotes_before_a_separator_are_an_empty_token() {
    let line = units("\"\" a");
    let args = parse_lp_cmd_line(&line, false);
    assert_eq!(texts(&args), vec!["", "a"]);
    assert_eq!(args[0].range, 0..2);
}

#[test]
fn leading_separator_under_the_general_rule_ends_an_empty_token() {
    let line = units(" a");
    let args = parse_lp_cmd_line(&line, false);
    assert_eq!(texts(&args), vec!["", "a"]);
    assert_eq!(args[0].range, 0..0);
    assert_eq!(args[1].range, 1..2);
}

#[test]
fn trailing_separators_leave_no_token() {
    let line = units("a \t ");
    let args = parse_lp_cmd_line(&line, false);
    assert_eq!(texts(&args), vec!["a"]);
}

#[test]
fn executable_name_takes_backslashes_and_toggles_on_quotes() {
    let line = units("\"C:\\Program Files\\x\\\"y z");
    let args = parse_lp_cmd_line(&line, true);
    assert_eq!(texts(&args), vec!["C:\\Program Files\\x\\y", "z"]);
    assert_eq!(args[0].range, 0..22);
}

#[test]
fn executable_name_up_to_the_end_of_the_buffer() {
    let line = units("prog");
    let args = parse_lp_cmd_line(&line, true);
    assert_eq!(texts(&args), vec!["prog"]);
    assert_eq!(args[0].range, 0..4);
}

#[test]
fn lone_surrogates_are_kept() {
    let line: Vec<u16> = vec![0x61, 0xD83D, 0x20, 0xDE00];
    let args = parse_lp_cmd_line(&line, false);
    assert_eq!(args.len(), 2);
    assert_eq!(args[0].arg, vec![0x61, 0xD83D]);
    assert_eq!(args[1].arg, vec![0xDE00]);
}

#[test]
fn rest_follows_the_separator_after_an_argument() {
    let line = units("prog --cmd-line-is-rest a  b");
    let args = parse_lp_cmd_line(&line, true);
    assert_eq!(get_rest(&line, &args[1]), &units("a  b")[..]);
    assert_eq!(get_rest(&line, &args[0]), &units("--cmd-line-is-rest a  b")[..]);
}

#[test]
fn rest_after_the_last_argument_is_empty() {
    let line = units("prog a");
    let args = parse_lp_cmd_line(&line, true);
    assert_eq!(get_rest(&line, &args[1]).len(), 0);
    let line = units("prog a ");
    let args = parse_lp_cmd_line(&line, true);
    assert_eq!(get_rest(&line, &args[1]).len(), 0);
}
