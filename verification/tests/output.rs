use create_process_rust::commandline::parse_lp_cmd_line;
use create_process_rust::output::{report_arg, report_cmdline};
use create_process_rust::units::copy_of;

fn w(text: &str) -> Vec<u16> {
    text.encode_utf16().collect()
}

#[test]
fn report_shows_value_raw_units_and_range() {
    let line = w("prog \"a b\"");
    let args = parse_lp_cmd_line(&line, true);
    let report = report_arg(&args[1]);
    assert_eq!(report.number, 1);
    assert_eq!(report.arg, "a b");
    assert!(!report.arg_lossy);
    assert_eq!(report.arg_utf16, w("a b"));
    assert_eq!(report.raw, "\"a b\"");
    assert!(!report.raw_lossy);
    assert_eq!(report.raw_utf16, w("\"a b\""));
    assert_eq!(report.raw_start, 5);
    assert_eq!(report.raw_end, 10);
}

#[test]
fn report_flags_text_that_is_not_exact() {
    let mut line = w("p x");
    line.push(0xD800);
    let args = parse_lp_cmd_line(&line, true);
    let report = report_cmdline(&line, &args);
    assert_eq!(report.cmdline, "p x\u{fffd}");
    assert!(report.cmdline_lossy);
    assert_eq!(report.cmdline_utf16, line);
    assert_eq!(report.args.len(), 2);
    assert!(!report.args[0].arg_lossy);
    assert!(!report.args[0].raw_lossy);
    assert_eq!(report.args[1].arg, "x\u{fffd}");
    assert!(report.args[1].arg_lossy);
    assert!(report.args[1].raw_lossy);
    assert_eq!(report.args[1].arg_utf16, vec![0x78, 0xD800]);
}

#[test]
fn report_of_an_empty_command_line() {
    let line: Vec<u16> = Vec::new();
    let args = parse_lp_cmd_line(&line, true);
    let report = report_cmdline(&line, &args);
    assert_eq!(report.cmdline, "");
    assert!(!report.cmdline_lossy);
    assert!(report.args.is_empty());
}

#[test]
fn copy_of_units() {
    assert_eq!(copy_of(&w("a\\b")), w("a\\b"));
    assert_eq!(copy_of(&[]), Vec::<u16>::new());
}
