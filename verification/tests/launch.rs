use create_process_rust::commandline::TRAILING_BACKSLASH_WARNING;
use create_process_rust::error::{CommandLineError, InputError, LaunchError};
use create_process_rust::input::{
    get_cmdline_from_json, get_program_from_json, is_filename_stdin, JsonUserInput,
};
use create_process_rust::launch::{
    check_exec_options, resolve_cmdline, resolve_program, CmdlineSource, ProgramSource,
};
use create_process_rust::options::{CmdlineOpt, ExecOptions, ProgramOpt};

fn w(text: &str) -> Vec<u16> {
    text.encode_utf16().collect()
}

fn exec_options(program: ProgramOpt, prepend_program: bool, strip_program: bool) -> ExecOptions {
    ExecOptions {
        program,
        cmdline: CmdlineOpt::Null,
        prepend_program,
        strip_program,
        dry_run: false,
        split_and_print_inner_cmdline: false,
    }
}

fn input(args: Option<Vec<Vec<u16>>>, cmdline: Option<Vec<u16>>) -> JsonUserInput {
    JsonUserInput { args, cmdline, program: None }
}

#[test]
fn dash_stands_for_standard_input() {
    assert!(is_filename_stdin(&w("-")));
    assert!(!is_filename_stdin(&w("--")));
    assert!(!is_filename_stdin(&w("")));
    assert!(!is_filename_stdin(&w("a")));
}

#[test]
fn json_with_command_line_gives_it() {
    assert_eq!(get_cmdline_from_json(&input(None, Some(w("p a b")))), Ok(w("p a b")));
}

#[test]
fn json_with_arguments_gives_the_empty_command_line() {
    assert_eq!(get_cmdline_from_json(&input(Some(vec![w("p"), w("a")]), None)), Ok(Vec::new()));
}

#[test]
fn json_with_both_or_neither_is_refused() {
    assert_eq!(
        get_cmdline_from_json(&input(Some(vec![]), Some(w("p")))),
        Err(InputError::ArgsAndCmdline)
    );
    assert_eq!(get_cmdline_from_json(&input(None, None)), Err(InputError::NoCmdline));
}

#[test]
fn json_gives_no_program() {
    let document = JsonUserInput { args: None, cmdline: None, program: Some(w("p")) };
    assert_eq!(get_program_from_json(&document), Err(InputError::ProgramNotSupported));
}

#[test]
fn strip_needs_the_program_from_the_command_line() {
    assert_eq!(
        check_exec_options(&exec_options(ProgramOpt::Str(w("p")), false, true)),
        Err(LaunchError::StripWithoutProgramFromCmdLine)
    );
    assert_eq!(
        check_exec_options(&exec_options(ProgramOpt::Null, true, true)),
        Err(LaunchError::StripWithoutProgramFromCmdLine)
    );
    assert_eq!(check_exec_options(&exec_options(ProgramOpt::FromCmdLine, false, true)), Ok(()));
}

#[test]
fn prepend_needs_a_given_program() {
    assert_eq!(
        check_exec_options(&exec_options(ProgramOpt::FromCmdLine, true, false)),
        Err(LaunchError::PrependWithoutGivenProgram)
    );
    assert_eq!(
        check_exec_options(&exec_options(ProgramOpt::Null, true, false)),
        Err(LaunchError::PrependWithoutGivenProgram)
    );
    assert_eq!(check_exec_options(&exec_options(ProgramOpt::Str(w("p")), true, false)), Ok(()));
    assert_eq!(
        check_exec_options(&exec_options(ProgramOpt::FromJSONFile(w("f")), true, false)),
        Ok(())
    );
    assert_eq!(check_exec_options(&exec_options(ProgramOpt::Null, false, false)), Ok(()));
}

#[test]
fn command_line_sources() {
    assert_eq!(resolve_cmdline(CmdlineSource::Str(w("a b"))), Ok(Some(w("a b"))));
    assert_eq!(resolve_cmdline(CmdlineSource::Null), Ok(None));
    let document = input(None, Some(w("x y")));
    assert_eq!(resolve_cmdline(CmdlineSource::Json(&document)), Ok(Some(w("x y"))));
    let bad = input(None, None);
    assert_eq!(
        resolve_cmdline(CmdlineSource::Json(&bad)),
        Err(LaunchError::Input(InputError::NoCmdline))
    );
}

#[test]
fn given_program_leaves_the_command_line() {
    let launch = resolve_program(ProgramSource::Str(w("p.exe")), Some(w("x a")), false, false).unwrap();
    assert_eq!(launch.program, Some(w("p.exe")));
    assert_eq!(launch.cmdline, Some(w("x a")));
    assert_eq!(launch.warning, None);
    let launch = resolve_program(ProgramSource::Null, None, false, false).unwrap();
    assert_eq!(launch.program, None);
    assert_eq!(launch.cmdline, None);
}

#[test]
fn program_is_the_first_argument_of_the_command_line() {
    let launch =
        resolve_program(ProgramSource::FromCmdLine, Some(w("\"my prog\"  a b")), false, false)
            .unwrap();
    assert_eq!(launch.program, Some(w("my prog")));
    assert_eq!(launch.cmdline, Some(w("\"my prog\"  a b")));
}

#[test]
fn stripped_command_line_begins_after_one_separator() {
    let launch =
        resolve_program(ProgramSource::FromCmdLine, Some(w("\"my prog\"  a b")), true, false)
            .unwrap();
    assert_eq!(launch.program, Some(w("my prog")));
    assert_eq!(launch.cmdline, Some(w(" a b")));
    let launch = resolve_program(ProgramSource::FromCmdLine, Some(w("p")), true, false).unwrap();
    assert_eq!(launch.program, Some(w("p")));
    assert_eq!(launch.cmdline, Some(Vec::new()));
}

#[test]
fn program_from_a_missing_or_empty_command_line_is_refused() {
    assert_eq!(
        resolve_program(ProgramSource::FromCmdLine, None, false, false).err(),
        Some(LaunchError::NoCmdLineForProgram)
    );
    assert_eq!(
        resolve_program(ProgramSource::FromCmdLine, Some(Vec::new()), false, false).err(),
        Some(LaunchError::NoProgramInCmdLine)
    );
}

#[test]
fn program_from_json_is_refused() {
    let document = JsonUserInput { args: None, cmdline: None, program: Some(w("p")) };
    assert_eq!(
        resolve_program(ProgramSource::Json(&document), Some(w("a")), false, false).err(),
        Some(LaunchError::Input(InputError::ProgramNotSupported))
    );
}

#[test]
fn prepended_program_is_written_as_the_executable_name() {
    let launch =
        resolve_program(ProgramSource::Str(w("C:\\my dir\\p.exe")), Some(w("a b")), false, true)
            .unwrap();
    assert_eq!(launch.program, Some(w("C:\\my dir\\p.exe")));
    assert_eq!(launch.cmdline, Some(w("\"C:\\my dir\\p.exe\" a b")));
    assert_eq!(launch.warning, None);
    let launch = resolve_program(ProgramSource::Str(w("p")), Some(Vec::new()), false, true).unwrap();
    assert_eq!(launch.cmdline, Some(w("p ")));
}

#[test]
fn prepended_program_with_trailing_backslash_warns() {
    let launch =
        resolve_program(ProgramSource::Str(w("C:\\my dir\\")), Some(w("a")), false, true).unwrap();
    assert_eq!(launch.cmdline, Some(w("\"C:\\my dir\\\" a")));
    assert_eq!(launch.warning, Some(TRAILING_BACKSLASH_WARNING));
}

#[test]
fn prepend_without_command_line_or_with_a_quote_is_refused() {
    assert_eq!(
        resolve_program(ProgramSource::Str(w("p")), None, false, true).err(),
        Some(LaunchError::PrependToNullCmdLine)
    );
    assert_eq!(
        resolve_program(ProgramSource::Str(w("p\"q")), Some(w("a")), false, true).err(),
        Some(LaunchError::ArgZero(CommandLineError::QuoteNotAllowed))
    );
}

#[test]
fn prepend_without_program_changes_nothing() {
    let launch = resolve_program(ProgramSource::Null, Some(w("a")), false, true).unwrap();
    assert_eq!(launch.program, None);
    assert_eq!(launch.cmdline, Some(w("a")));
}
