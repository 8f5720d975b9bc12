use create_process_rust::commandline::parse_lp_cmd_line;
use create_process_rust::error::{CommandLineError, OptionError};
use create_process_rust::options::{
    classify, get_options, CmdlineOpt, MainChoice, MainOptions, Opt, ProgramOpt,
};

fn w(text: &str) -> Vec<u16> {
    text.encode_utf16().collect()
}

fn options(line: &str) -> Result<MainOptions, OptionError> {
    let line = w(line);
    let args = parse_lp_cmd_line(&line, true);
    get_options(&line, &args)
}

#[test]
fn every_option_name_is_known() {
    assert_eq!(classify(&w("--dry-run")), Some(Opt::DryRun));
    assert_eq!(classify(&w("--prepend-program")), Some(Opt::PrependProgram));
    assert_eq!(classify(&w("--strip-program")), Some(Opt::StripProgram));
    assert_eq!(
        classify(&w("--split-and-print-inner-cmdline")),
        Some(Opt::SplitAndPrintInnerCmdline)
    );
    assert_eq!(classify(&w("--print-args")), Some(Opt::PrintArgs));
    assert_eq!(classify(&w("--json")), Some(Opt::Json));
    assert_eq!(classify(&w("--silent")), Some(Opt::Silent));
    assert_eq!(classify(&w("--print-args-only")), Some(Opt::PrintArgsOnly));
    for help in ["--help", "-help", "/help", "-h", "/h", "-?", "/?"] {
        assert_eq!(classify(&w(help)), Some(Opt::Help));
    }
    assert_eq!(classify(&w("--program")), Some(Opt::Program));
    assert_eq!(classify(&w("--program-utf16le-base64")), Some(Opt::ProgramUtf16leBase64));
    assert_eq!(classify(&w("--program-from-cmd-line")), Some(Opt::ProgramFromCmdLine));
    assert_eq!(classify(&w("--program-is-null")), Some(Opt::ProgramIsNull));
    assert_eq!(classify(&w("--cmd-line-in-arg")), Some(Opt::CmdLineInArg));
    assert_eq!(classify(&w("--cmd-line-utf16le-base64")), Some(Opt::CmdLineUtf16leBase64));
    assert_eq!(classify(&w("--cmd-line-is-rest")), Some(Opt::CmdLineIsRest));
    assert_eq!(classify(&w("--cmd-line-is-null")), Some(Opt::CmdLineIsNull));
}

#[test]
fn other_texts_name_no_option() {
    assert_eq!(classify(&w("--dry-ru")), None);
    assert_eq!(classify(&w("--dry-runs")), None);
    assert_eq!(classify(&w("--Dry-run")), None);
    assert_eq!(classify(&w("")), None);
    assert_eq!(classify(&w("--cmd-line-from-json")), None);
}

#[test]
fn no_arguments_at_all_print_the_arguments() {
    let line: Vec<u16> = Vec::new();
    let args = parse_lp_cmd_line(&line, true);
    let options = get_options(&line, &args).unwrap();
    assert!(options.print_opts.print_args);
    assert!(matches!(options.main_choice, MainChoice::PrintArgs));
}

#[test]
fn tool_name_alone_prints_the_arguments() {
    let options = options("cpr.exe").unwrap();
    assert!(!options.print_opts.print_args);
    assert!(!options.print_opts.json);
    assert!(matches!(options.main_choice, MainChoice::PrintArgs));
}

#[test]
fn print_options_alone_print_the_arguments() {
    let options = options("cpr --json --silent").unwrap();
    assert!(options.print_opts.json);
    assert!(options.print_opts.silent);
    assert!(!options.print_opts.print_args);
    assert!(matches!(options.main_choice, MainChoice::PrintArgs));
}

#[test]
fn print_args_only_takes_the_rest_unread() {
    let options = options("cpr --json --print-args-only --no-such-option x").unwrap();
    assert!(options.print_opts.json);
    assert!(options.print_opts.print_args);
    assert!(matches!(options.main_choice, MainChoice::PrintArgs));
}

#[test]
fn print_args_only_after_another_option_is_refused() {
    assert_eq!(
        options("cpr --dry-run --print-args-only").err(),
        Some(OptionError::ConflictingOptions { arg: 2 })
    );
}

#[test]
fn help_ends_the_reading() {
    let options = options("cpr --silent /? --no-such-option").unwrap();
    assert!(options.print_opts.silent);
    assert!(matches!(options.main_choice, MainChoice::Help));
}

#[test]
fn program_and_command_line_in_arguments() {
    let options = options(
        "cpr --print-args --program C:\\x.exe --dry-run --cmd-line-in-arg \"x a b\" --prepend-program",
    )
    .unwrap();
    assert!(options.print_opts.print_args);
    match options.main_choice {
        MainChoice::ExecOpts(exec) => {
            assert!(matches!(exec.program, ProgramOpt::Str(ref p) if *p == w("C:\\x.exe")));
            assert!(matches!(exec.cmdline, CmdlineOpt::Str(ref c) if *c == w("x a b")));
            assert!(exec.dry_run);
            assert!(exec.prepend_program);
            assert!(!exec.strip_program);
            assert!(!exec.split_and_print_inner_cmdline);
        },
        _ => panic!("expected options to start a process"),
    }
}

#[test]
fn command_line_is_the_rest_as_it_stands() {
    let options =
        options("cpr --program-from-cmd-line --strip-program --cmd-line-is-rest  p \"a  b\" --json")
            .unwrap();
    assert!(!options.print_opts.json);
    match options.main_choice {
        MainChoice::ExecOpts(exec) => {
            assert!(matches!(exec.program, ProgramOpt::FromCmdLine));
            assert!(matches!(exec.cmdline, CmdlineOpt::Str(ref c) if *c == w(" p \"a  b\" --json")));
            assert!(exec.strip_program);
        },
        _ => panic!("expected options to start a process"),
    }
}

#[test]
fn command_line_is_rest_at_the_end_is_empty() {
    let options = options("cpr --program-is-null --cmd-line-is-rest").unwrap();
    match options.main_choice {
        MainChoice::ExecOpts(exec) => {
            assert!(matches!(exec.program, ProgramOpt::Null));
            assert!(matches!(exec.cmdline, CmdlineOpt::Str(ref c) if c.is_empty()));
        },
        _ => panic!("expected options to start a process"),
    }
}

#[test]
fn base64_values_are_decoded() {
    let options = options(
        "cpr --split-and-print-inner-cmdline --program-utf16le-base64 QQBCAA== --cmd-line-utf16le-base64 PdgA3g==",
    )
    .unwrap();
    match options.main_choice {
        MainChoice::ExecOpts(exec) => {
            assert!(matches!(exec.program, ProgramOpt::Str(ref p) if *p == vec![0x41, 0x42]));
            assert!(matches!(exec.cmdline, CmdlineOpt::Str(ref c) if *c == vec![0xd83d, 0xde00]));
            assert!(exec.split_and_print_inner_cmdline);
        },
        _ => panic!("expected options to start a process"),
    }
}

#[test]
fn null_program_and_null_command_line() {
    let options = options("cpr --cmd-line-is-null --program-is-null").unwrap();
    match options.main_choice {
        MainChoice::ExecOpts(exec) => {
            assert!(matches!(exec.program, ProgramOpt::Null));
            assert!(matches!(exec.cmdline, CmdlineOpt::Null));
        },
        _ => panic!("expected options to start a process"),
    }
}

#[test]
fn unknown_option_is_refused() {
    assert_eq!(options("cpr --json --frobnicate").err(), Some(OptionError::UnknownOption { arg: 2 }));
    assert_eq!(options("cpr \"\" --json").err(), Some(OptionError::UnknownOption { arg: 1 }));
}

#[test]
fn option_without_its_value_is_refused() {
    assert_eq!(options("cpr --program").err(), Some(OptionError::MissingOptionValue { arg: 1 }));
    assert_eq!(
        options("cpr --program-is-null --cmd-line-in-arg").err(),
        Some(OptionError::MissingOptionValue { arg: 2 })
    );
    assert_eq!(
        options("cpr --program-utf16le-base64").err(),
        Some(OptionError::MissingOptionValue { arg: 1 })
    );
    assert_eq!(
        options("cpr --cmd-line-utf16le-base64").err(),
        Some(OptionError::MissingOptionValue { arg: 1 })
    );
}

#[test]
fn program_or_command_line_set_twice_is_refused() {
    assert_eq!(
        options("cpr --program a --program-is-null").err(),
        Some(OptionError::OptionAlreadySet { arg: 3 })
    );
    assert_eq!(
        options("cpr --program-from-cmd-line --program b").err(),
        Some(OptionError::OptionAlreadySet { arg: 2 })
    );
    assert_eq!(
        options("cpr --cmd-line-is-null --cmd-line-is-rest a").err(),
        Some(OptionError::OptionAlreadySet { arg: 2 })
    );
    assert_eq!(
        options("cpr --cmd-line-in-arg a --cmd-line-utf16le-base64").err(),
        Some(OptionError::OptionAlreadySet { arg: 3 })
    );
}

#[test]
fn value_that_is_no_base64_is_refused() {
    assert_eq!(
        options("cpr --program-utf16le-base64 QUJD").err(),
        Some(OptionError::BadOptionValue { arg: 1, cause: CommandLineError::OddByteCount })
    );
    assert_eq!(
        options("cpr --dry-run --cmd-line-utf16le-base64 ***").err(),
        Some(OptionError::BadOptionValue { arg: 2, cause: CommandLineError::InvalidBase64 })
    );
    let line: Vec<u16> = {
        let mut line = w("cpr --program-utf16le-base64 ");
        line.push(0xD800);
        line
    };
    let args = parse_lp_cmd_line(&line, true);
    assert_eq!(
        get_options(&line, &args).err(),
        Some(OptionError::BadOptionValue { arg: 1, cause: CommandLineError::NotUtf8 })
    );
}

#[test]
fn neither_program_nor_command_line_is_refused() {
    assert_eq!(options("cpr --dry-run").err(), Some(OptionError::NothingSpecified));
    assert_eq!(options("cpr --json --strip-program").err(), Some(OptionError::NothingSpecified));
}

#[test]
fn flag_with_print_args_prints_the_arguments() {
    let options = options("cpr --dry-run --print-args").unwrap();
    assert!(options.print_opts.print_args);
    assert!(matches!(options.main_choice, MainChoice::PrintArgs));
}

#[test]
fn program_without_command_line_is_refused() {
    assert_eq!(options("cpr --program p").err(), Some(OptionError::CmdLineNotSpecified));
}

#[test]
fn command_line_without_program_is_refused() {
    assert_eq!(
        options("cpr --print-args --cmd-line-is-null").err(),
        Some(OptionError::ProgramNotSpecified)
    );
}
