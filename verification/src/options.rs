//! The options of the command-line tool: what each argument asks for, and
//! what the whole list of arguments amounts to.

use vstd::prelude::*;
use vstd::string::is_ascii_spec_bytes;
use crate::codec::{decode_utf16le_base64, decoded_units};
use crate::commandline::{arg_tokens, get_rest, Arg};
use crate::error::{CommandLineError, OptionError};
use crate::grammar::{rest_after, Token};
use crate::units::copy_of;

verus! {

/// An option that the tool knows.
#[derive(Clone, Copy, Debug, PartialEq, Eq, Structural)]
pub enum Opt {
    /// `--dry-run`
    DryRun,
    /// `--prepend-program`
    PrependProgram,
    /// `--strip-program`
    StripProgram,
    /// `--split-and-print-inner-cmdline`
    SplitAndPrintInnerCmdline,
    /// `--print-args`
    PrintArgs,
    /// `--json`
    Json,
    /// `--silent`
    Silent,
    /// `--print-args-only`
    PrintArgsOnly,
    /// `--help`, `-help`, `/help`, `-h`, `/h`, `-?`, `/?`
    Help,
    /// `--program`
    Program,
    /// `--program-utf16le-base64`
    ProgramUtf16leBase64,
    /// `--program-from-cmd-line`
    ProgramFromCmdLine,
    /// `--program-is-null`
    ProgramIsNull,
    /// `--cmd-line-in-arg`
    CmdLineInArg,
    /// `--cmd-line-utf16le-base64`
    CmdLineUtf16leBase64,
    /// `--cmd-line-is-rest`
    CmdLineIsRest,
    /// `--cmd-line-is-null`
    CmdLineIsNull,
}

/// The code units of a text of ASCII characters.
pub open spec fn ascii_units(text: Seq<char>) -> Seq<u16> {
    Seq::new(text.len(), |i: int| text[i] as u16)
}

/// Whether `units` spell the ASCII text `name`.
fn spells(units: &[u16], name: &str) -> (same: bool)
    requires
        name.is_ascii(),
    ensures
        same == (units@ == ascii_units(name@)),
{
    let bytes = name.as_bytes();
    proof {
        is_ascii_spec_bytes(name);
    }
    if units.len() != bytes.len() {
        return false;
    }
    let mut i: usize = 0;
    while i < units.len()
        invariant
            i <= units@.len(),
            units@.len() == bytes@.len(),
            bytes@.len() == name@.len(),
            name.is_ascii(),
            forall|j: int| 0 <= j < bytes@.len() ==> bytes@[j] == name@[j] as u8,
            forall|j: int| 0 <= j < i ==> units@[j] == name@[j] as u16,
        decreases units@.len() - i,
    {
        let byte: u8 = bytes[i];
        if units[i] != byte as u16 {
            return false;
        }
        i += 1;
    }
    assert(units@ =~= ascii_units(name@));
    true
}

/// The option that `text` names, if it names one.
#[verifier::opaque]
pub open spec fn option_named(text: Seq<u16>) -> Option<Opt> {
    if text == ascii_units("--dry-run"@) {
        Some(Opt::DryRun)
    } else if text == ascii_units("--prepend-program"@) {
        Some(Opt::PrependProgram)
    } else if text == ascii_units("--strip-program"@) {
        Some(Opt::StripProgram)
    } else if text == ascii_units("--split-and-print-inner-cmdline"@) {
        Some(Opt::SplitAndPrintInnerCmdline)
    } else if text == ascii_units("--print-args"@) {
        Some(Opt::PrintArgs)
    } else if text == ascii_units("--json"@) {
        Some(Opt::Json)
    } else if text == ascii_units("--silent"@) {
        Some(Opt::Silent)
    } else if text == ascii_units("--print-args-only"@) {
        Some(Opt::PrintArgsOnly)
    } else if text == ascii_units("--help"@) || text == ascii_units("-help"@) || text
        == ascii_units("/help"@) || text == ascii_units("-h"@) || text == ascii_units("/h"@)
        || text == ascii_units("-?"@) || text == ascii_units("/?"@) {
        Some(Opt::Help)
    } else if text == ascii_units("--program"@) {
        Some(Opt::Program)
    } else if text == ascii_units("--program-utf16le-base64"@) {
        Some(Opt::ProgramUtf16leBase64)
    } else if text == ascii_units("--program-from-cmd-line"@) {
        Some(Opt::ProgramFromCmdLine)
    } else if text == ascii_units("--program-is-null"@) {
        Some(Opt::ProgramIsNull)
    } else if text == ascii_units("--cmd-line-in-arg"@) {
        Some(Opt::CmdLineInArg)
    } else if text == ascii_units("--cmd-line-utf16le-base64"@) {
        Some(Opt::CmdLineUtf16leBase64)
    } else if text == ascii_units("--cmd-line-is-rest"@) {
        Some(Opt::CmdLineIsRest)
    } else if text == ascii_units("--cmd-line-is-null"@) {
        Some(Opt::CmdLineIsNull)
    } else {
        None
    }
}

/// The names of the options are ASCII text.
proof fn lemma_names_are_ascii()
    ensures
        "--dry-run".is_ascii(),
        "--prepend-program".is_ascii(),
        "--strip-program".is_ascii(),
        "--split-and-print-inner-cmdline".is_ascii(),
        "--print-args".is_ascii(),
        "--json".is_ascii(),
        "--silent".is_ascii(),
        "--print-args-only".is_ascii(),
        "--help".is_ascii(),
        "-help".is_ascii(),
        "/help".is_ascii(),
        "-h".is_ascii(),
        "/h".is_ascii(),
        "-?".is_ascii(),
        "/?".is_ascii(),
        "--program".is_ascii(),
        "--program-utf16le-base64".is_ascii(),
        "--program-from-cmd-line".is_ascii(),
        "--program-is-null".is_ascii(),
        "--cmd-line-in-arg".is_ascii(),
        "--cmd-line-utf16le-base64".is_ascii(),
        "--cmd-line-is-rest".is_ascii(),
        "--cmd-line-is-null".is_ascii(),
{
    reveal_strlit("--dry-run");
    reveal_strlit("--prepend-program");
    reveal_strlit("--strip-program");
    reveal_strlit("--split-and-print-inner-cmdline");
    reveal_strlit("--print-args");
    reveal_strlit("--json");
    reveal_strlit("--silent");
    reveal_strlit("--print-args-only");
    reveal_strlit("--help");
    reveal_strlit("-help");
    reveal_strlit("/help");
    reveal_strlit("-h");
    reveal_strlit("/h");
    reveal_strlit("-?");
    reveal_strlit("/?");
    reveal_strlit("--program");
    reveal_strlit("--program-utf16le-base64");
    reveal_strlit("--program-from-cmd-line");
    reveal_strlit("--program-is-null");
    reveal_strlit("--cmd-line-in-arg");
    reveal_strlit("--cmd-line-utf16le-base64");
    reveal_strlit("--cmd-line-is-rest");
    reveal_strlit("--cmd-line-is-null");
}

/// Tells which option an argument names.
pub fn classify(text: &[u16]) -> (option: Option<Opt>)
    ensures
        option == option_named(text@),
{
    proof {
        reveal(option_named);
        lemma_names_are_ascii();
    }
    if spells(text, "--dry-run") {
        Some(Opt::DryRun)
    } else if spells(text, "--prepend-program") {
        Some(Opt::PrependProgram)
    } else if spells(text, "--strip-program") {
        Some(Opt::StripProgram)
    } else if spells(text, "--split-and-print-inner-cmdline") {
        Some(Opt::SplitAndPrintInnerCmdline)
    } else if spells(text, "--print-args") {
        Some(Opt::PrintArgs)
    } else if spells(text, "--json") {
        Some(Opt::Json)
    } else if spells(text, "--silent") {
        Some(Opt::Silent)
    } else if spells(text, "--print-args-only") {
        Some(Opt::PrintArgsOnly)
    } else if spells(text, "--help") || spells(text, "-help") || spells(text, "/help") || spells(
        text,
        "-h",
    ) || spells(text, "/h") || spells(text, "-?") || spells(text, "/?") {
        Some(Opt::Help)
    } else if spells(text, "--program") {
        Some(Opt::Program)
    } else if spells(text, "--program-utf16le-base64") {
        Some(Opt::ProgramUtf16leBase64)
    } else if spells(text, "--program-from-cmd-line") {
        Some(Opt::ProgramFromCmdLine)
    } else if spells(text, "--program-is-null") {
        Some(Opt::ProgramIsNull)
    } else if spells(text, "--cmd-line-in-arg") {
        Some(Opt::CmdLineInArg)
    } else if spells(text, "--cmd-line-utf16le-base64") {
        Some(Opt::CmdLineUtf16leBase64)
    } else if spells(text, "--cmd-line-is-rest") {
        Some(Opt::CmdLineIsRest)
    } else if spells(text, "--cmd-line-is-null") {
        Some(Opt::CmdLineIsNull)
    } else {
        None
    }
}

/// Where the program to start comes from.
#[derive(Debug)]
pub enum ProgramOpt {
    /// The program is given.
    Str(Vec<u16>),
    /// No program is handed to the system, which then takes it from the
    /// command line.
    Null,
    /// The program is the first argument of the new command line.
    FromCmdLine,
    /// The program is read from the named JSON file.
    FromJSONFile(Vec<u16>),
}

/// `ProgramOpt` as a value of specifications.
pub enum ProgramOptView {
    Str(Seq<u16>),
    Null,
    FromCmdLine,
    FromJSONFile(Seq<u16>),
}

impl View for ProgramOpt {
    type V = ProgramOptView;

    open spec fn view(&self) -> ProgramOptView {
        match self {
            ProgramOpt::Str(units) => ProgramOptView::Str(units@),
            ProgramOpt::Null => ProgramOptView::Null,
            ProgramOpt::FromCmdLine => ProgramOptView::FromCmdLine,
            ProgramOpt::FromJSONFile(name) => ProgramOptView::FromJSONFile(name@),
        }
    }
}

/// Where the new command line comes from.
#[derive(Debug)]
pub enum CmdlineOpt {
    /// The command line is given.
    Str(Vec<u16>),
    /// No command line is handed to the system.
    Null,
    /// The command line is read from the named JSON file.
    FromJSONFile(Vec<u16>),
}

/// `CmdlineOpt` as a value of specifications.
pub enum CmdlineOptView {
    Str(Seq<u16>),
    Null,
    FromJSONFile(Seq<u16>),
}

impl View for CmdlineOpt {
    type V = CmdlineOptView;

    open spec fn view(&self) -> CmdlineOptView {
        match self {
            CmdlineOpt::Str(units) => CmdlineOptView::Str(units@),
            CmdlineOpt::Null => CmdlineOptView::Null,
            CmdlineOpt::FromJSONFile(name) => CmdlineOptView::FromJSONFile(name@),
        }
    }
}

/// What to start, and how.
#[derive(Debug)]
pub struct ExecOptions {
    pub program: ProgramOpt,
    pub cmdline: CmdlineOpt,
    /// Put the program before the command line, as its first argument.
    pub prepend_program: bool,
    /// Take the program off the command line that it was read from.
    pub strip_program: bool,
    /// Do everything but start the process.
    pub dry_run: bool,
    /// Split the new command line and print its arguments.
    pub split_and_print_inner_cmdline: bool,
}

/// `ExecOptions` as a value of specifications.
pub struct ExecOptionsView {
    pub program: ProgramOptView,
    pub cmdline: CmdlineOptView,
    pub prepend_program: bool,
    pub strip_program: bool,
    pub dry_run: bool,
    pub split_and_print_inner_cmdline: bool,
}

impl View for ExecOptions {
    type V = ExecOptionsView;

    open spec fn view(&self) -> ExecOptionsView {
        ExecOptionsView {
            program: self.program@,
            cmdline: self.cmdline@,
            prepend_program: self.prepend_program,
            strip_program: self.strip_program,
            dry_run: self.dry_run,
            split_and_print_inner_cmdline: self.split_and_print_inner_cmdline,
        }
    }
}

/// What to print, and how.
#[derive(Clone, Copy, Debug, PartialEq, Eq, Structural)]
pub struct PrintOptions {
    pub json: bool,
    pub silent: bool,
    pub print_args: bool,
}

/// What the tool is to do.
#[derive(Debug)]
pub enum MainChoice {
    /// Print the help text.
    Help,
    /// Print the tool's own arguments, and nothing else.
    PrintArgs,
    /// Start a process.
    ExecOpts(ExecOptions),
}

/// `MainChoice` as a value of specifications.
pub enum MainChoiceView {
    Help,
    PrintArgs,
    ExecOpts(ExecOptionsView),
}

impl View for MainChoice {
    type V = MainChoiceView;

    open spec fn view(&self) -> MainChoiceView {
        match self {
            MainChoice::Help => MainChoiceView::Help,
            MainChoice::PrintArgs => MainChoiceView::PrintArgs,
            MainChoice::ExecOpts(options) => MainChoiceView::ExecOpts(options@),
        }
    }
}

/// Everything that the arguments of the tool say.
#[derive(Debug)]
pub struct MainOptions {
    pub print_opts: PrintOptions,
    pub main_choice: MainChoice,
}

/// `MainOptions` as a value of specifications.
pub struct MainOptionsView {
    pub print_opts: PrintOptions,
    pub main_choice: MainChoiceView,
}

impl View for MainOptions {
    type V = MainOptionsView;

    open spec fn view(&self) -> MainOptionsView {
        MainOptionsView { print_opts: self.print_opts, main_choice: self.main_choice@ }
    }
}

/// What the options read so far have set.
pub struct Pending {
    pub program: Option<ProgramOptView>,
    pub cmdline: Option<CmdlineOptView>,
    pub prepend_program: bool,
    pub strip_program: bool,
    pub dry_run: bool,
    pub split_and_print_inner_cmdline: bool,
    pub print_opts: PrintOptions,
    /// Whether every option read so far was a print option.
    pub only_print_opts: bool,
}

/// Nothing is set before the first option is read.
pub open spec fn nothing_pending() -> Pending {
    Pending {
        program: None,
        cmdline: None,
        prepend_program: false,
        strip_program: false,
        dry_run: false,
        split_and_print_inner_cmdline: false,
        print_opts: PrintOptions { json: false, silent: false, print_args: false },
        only_print_opts: true,
    }
}

/// What the tool is to do once all options are read.
///
/// With neither program nor command line set, the tool prints its
/// arguments if it was asked to or if it was given print options alone.
/// Otherwise both must be set.
pub open spec fn concluded(p: Pending) -> Result<MainOptionsView, OptionError> {
    match (p.program, p.cmdline) {
        (None, None) => if p.print_opts.print_args || p.only_print_opts {
            Ok(MainOptionsView { print_opts: p.print_opts, main_choice: MainChoiceView::PrintArgs })
        } else {
            Err(OptionError::NothingSpecified)
        },
        (None, Some(_)) => Err(OptionError::ProgramNotSpecified),
        (Some(_), None) => Err(OptionError::CmdLineNotSpecified),
        (Some(program), Some(cmdline)) => Ok(
            MainOptionsView {
                print_opts: p.print_opts,
                main_choice: MainChoiceView::ExecOpts(
                    ExecOptionsView {
                        program,
                        cmdline,
                        prepend_program: p.prepend_program,
                        strip_program: p.strip_program,
                        dry_run: p.dry_run,
                        split_and_print_inner_cmdline: p.split_and_print_inner_cmdline,
                    },
                ),
            },
        ),
    }
}

/// What reading one option leads to.
pub enum Step {
    /// Reading goes on at the argument `index`, with `pending` set.
    Next { index: int, pending: Pending },
    /// Reading ends with `result`.
    Done { result: Result<MainOptionsView, OptionError> },
}

/// Reading goes on after the option at `i`, which set a flag that is no
/// print option.
pub open spec fn flag_set(i: int, p: Pending) -> Step {
    Step::Next { index: i + 1, pending: Pending { only_print_opts: false, ..p } }
}

/// Reading goes on after the print option at `i`.
pub open spec fn print_option_set(i: int, p: Pending, print_opts: PrintOptions) -> Step {
    Step::Next { index: i + 1, pending: Pending { print_opts, ..p } }
}

/// The option at `i` sets the program to `program`, and reading goes on at
/// `next`. The option is refused where the program is set already, and
/// where it takes a value and the list ends before `next`.
pub open spec fn program_step(
    args: Seq<Token>,
    i: int,
    next: int,
    p: Pending,
    program: Result<ProgramOptView, CommandLineError>,
) -> Step {
    if p.program is Some {
        Step::Done { result: Err(OptionError::OptionAlreadySet { arg: i as usize }) }
    } else if next > args.len() {
        Step::Done { result: Err(OptionError::MissingOptionValue { arg: i as usize }) }
    } else {
        match program {
            Ok(program) => Step::Next {
                index: next,
                pending: Pending { program: Some(program), only_print_opts: false, ..p },
            },
            Err(cause) => Step::Done {
                result: Err(OptionError::BadOptionValue { arg: i as usize, cause }),
            },
        }
    }
}

/// The option at `i` sets the command line to `cmdline`, and reading goes
/// on at `next`. The option is refused where the command line is set
/// already, and where it takes a value and the list ends before `next`.
pub open spec fn cmdline_step(
    args: Seq<Token>,
    i: int,
    next: int,
    p: Pending,
    cmdline: Result<CmdlineOptView, CommandLineError>,
) -> Step {
    if p.cmdline is Some {
        Step::Done { result: Err(OptionError::OptionAlreadySet { arg: i as usize }) }
    } else if next > args.len() {
        Step::Done { result: Err(OptionError::MissingOptionValue { arg: i as usize }) }
    } else {
        match cmdline {
            Ok(cmdline) => Step::Next {
                index: next,
                pending: Pending { cmdline: Some(cmdline), only_print_opts: false, ..p },
            },
            Err(cause) => Step::Done {
                result: Err(OptionError::BadOptionValue { arg: i as usize, cause }),
            },
        }
    }
}

/// The program that the units `decoded` from base64 name.
pub open spec fn decoded_program(decoded: Result<Seq<u16>, CommandLineError>) -> Result<
    ProgramOptView,
    CommandLineError,
> {
    match decoded {
        Ok(units) => Ok(ProgramOptView::Str(units)),
        Err(e) => Err(e),
    }
}

/// The command line that the units `decoded` from base64 are.
pub open spec fn decoded_cmdline(decoded: Result<Seq<u16>, CommandLineError>) -> Result<
    CmdlineOptView,
    CommandLineError,
> {
    match decoded {
        Ok(units) => Ok(CmdlineOptView::Str(units)),
        Err(e) => Err(e),
    }
}

/// The text of the argument after the one at `i`, or nothing if the list
/// ends there.
pub open spec fn value_after(args: Seq<Token>, i: int) -> Seq<u16> {
    if 0 <= i + 1 < args.len() {
        args[i + 1].text
    } else {
        Seq::empty()
    }
}

/// What reading the argument at `i` leads to, given what the arguments
/// before it have set.
///
/// - The print options `--print-args`, `--json` and `--silent` set their
///   flag. So do `--dry-run`, `--prepend-program`, `--strip-program` and
///   `--split-and-print-inner-cmdline`, which are no print options.
/// - `--print-args-only` ends the reading: the tool prints its arguments.
///   It may follow print options only.
/// - A help option ends the reading: the tool prints its help text.
/// - The options for the program and for the command line set it, and are
///   refused where it is set already. `--program`, `--cmd-line-in-arg` and
///   the two base64 options take the next argument as their value.
/// - `--cmd-line-is-rest` takes all that follows it in the command line as
///   the new command line, and ends the reading.
/// - Any other argument is refused.
pub open spec fn option_step(cmd_line: Seq<u16>, args: Seq<Token>, i: int, p: Pending) -> Step {
    match option_named(args[i].text) {
        None => Step::Done { result: Err(OptionError::UnknownOption { arg: i as usize }) },
        Some(Opt::DryRun) => flag_set(i, Pending { dry_run: true, ..p }),
        Some(Opt::PrependProgram) => flag_set(i, Pending { prepend_program: true, ..p }),
        Some(Opt::StripProgram) => flag_set(i, Pending { strip_program: true, ..p }),
        Some(Opt::SplitAndPrintInnerCmdline) => flag_set(
            i,
            Pending { split_and_print_inner_cmdline: true, ..p },
        ),
        Some(Opt::PrintArgs) => print_option_set(
            i,
            p,
            PrintOptions { print_args: true, ..p.print_opts },
        ),
        Some(Opt::Json) => print_option_set(i, p, PrintOptions { json: true, ..p.print_opts }),
        Some(Opt::Silent) => print_option_set(i, p, PrintOptions { silent: true, ..p.print_opts }),
        Some(Opt::PrintArgsOnly) => Step::Done {
            result: if p.only_print_opts {
                Ok(
                    MainOptionsView {
                        print_opts: PrintOptions { print_args: true, ..p.print_opts },
                        main_choice: MainChoiceView::PrintArgs,
                    },
                )
            } else {
                Err(OptionError::ConflictingOptions { arg: i as usize })
            },
        },
        Some(Opt::Help) => Step::Done {
            result: Ok(
                MainOptionsView { print_opts: p.print_opts, main_choice: MainChoiceView::Help },
            ),
        },
        Some(Opt::Program) => program_step(
            args,
            i,
            i + 2,
            p,
            Ok(ProgramOptView::Str(value_after(args, i))),
        ),
        Some(Opt::ProgramUtf16leBase64) => program_step(
            args,
            i,
            i + 2,
            p,
            decoded_program(decoded_units(value_after(args, i))),
        ),
        Some(Opt::ProgramFromCmdLine) => program_step(
            args,
            i,
            i + 1,
            p,
            Ok(ProgramOptView::FromCmdLine),
        ),
        Some(Opt::ProgramIsNull) => program_step(args, i, i + 1, p, Ok(ProgramOptView::Null)),
        Some(Opt::CmdLineInArg) => cmdline_step(
            args,
            i,
            i + 2,
            p,
            Ok(CmdlineOptView::Str(value_after(args, i))),
        ),
        Some(Opt::CmdLineUtf16leBase64) => cmdline_step(
            args,
            i,
            i + 2,
            p,
            decoded_cmdline(decoded_units(value_after(args, i))),
        ),
        Some(Opt::CmdLineIsRest) => match cmdline_step(
            args,
            i,
            i + 1,
            p,
            Ok(CmdlineOptView::Str(rest_after(cmd_line, args[i]))),
        ) {
            Step::Next { index, pending } => Step::Done { result: concluded(pending) },
            done => done,
        },
        Some(Opt::CmdLineIsNull) => cmdline_step(args, i, i + 1, p, Ok(CmdlineOptView::Null)),
    }
}

/// What the arguments from index `i` on amount to, given what the
/// arguments before them have set: the options are read one by one until
/// one of them ends the reading or the list ends.
pub open spec fn options_from(cmd_line: Seq<u16>, args: Seq<Token>, i: int, p: Pending) -> Result<
    MainOptionsView,
    OptionError,
>
    decreases args.len() - i,
{
    if !(0 <= i < args.len()) {
        concluded(p)
    } else {
        match option_step(cmd_line, args, i, p) {
            Step::Next { index, pending } => options_from(cmd_line, args, index, pending),
            Step::Done { result } => result,
        }
    }
}

/// What the arguments `args` of the tool amount to, `cmd_line` being the
/// command line that they were read from.
///
/// The first argument is the tool's own name and is passed over. Without
/// any argument at all the tool prints its arguments.
pub open spec fn options_of(cmd_line: Seq<u16>, args: Seq<Token>) -> Result<
    MainOptionsView,
    OptionError,
> {
    if args.len() == 0 {
        Ok(
            MainOptionsView {
                print_opts: PrintOptions { json: false, silent: false, print_args: true },
                main_choice: MainChoiceView::PrintArgs,
            },
        )
    } else {
        options_from(cmd_line, args, 1, nothing_pending())
    }
}

/// What the options read so far have set.
struct Reading {
    program: Option<ProgramOpt>,
    cmdline: Option<CmdlineOpt>,
    prepend_program: bool,
    strip_program: bool,
    dry_run: bool,
    split_and_print_inner_cmdline: bool,
    print_opts: PrintOptions,
    only_print_opts_thus_far: bool,
}

impl View for Reading {
    type V = Pending;

    closed spec fn view(&self) -> Pending {
        Pending {
            program: match self.program {
                Some(program) => Some(program@),
                None => None,
            },
            cmdline: match self.cmdline {
                Some(cmdline) => Some(cmdline@),
                None => None,
            },
            prepend_program: self.prepend_program,
            strip_program: self.strip_program,
            dry_run: self.dry_run,
            split_and_print_inner_cmdline: self.split_and_print_inner_cmdline,
            print_opts: self.print_opts,
            only_print_opts: self.only_print_opts_thus_far,
        }
    }
}

/// What reading one option led to.
enum Outcome {
    Next(usize, Reading),
    Done(Result<MainOptions, OptionError>),
}

/// `result` as a value of specifications.
spec fn result_view(result: Result<MainOptions, OptionError>) -> Result<
    MainOptionsView,
    OptionError,
> {
    match result {
        Ok(options) => Ok(options@),
        Err(e) => Err(e),
    }
}

impl View for Outcome {
    type V = Step;

    closed spec fn view(&self) -> Step {
        match self {
            Outcome::Next(index, reading) => Step::Next { index: *index as int, pending: reading@ },
            Outcome::Done(result) => Step::Done { result: result_view(*result) },
        }
    }
}

impl Reading {
    fn new() -> (reading: Self)
        ensures
            reading@ == nothing_pending(),
    {
        Reading {
            program: None,
            cmdline: None,
            prepend_program: false,
            strip_program: false,
            dry_run: false,
            split_and_print_inner_cmdline: false,
            print_opts: PrintOptions { json: false, silent: false, print_args: false },
            only_print_opts_thus_far: true,
        }
    }

    /// What the tool is to do, now that all options are read.
    fn conclude(self) -> (result: Result<MainOptions, OptionError>)
        ensures
            result_view(result) == concluded(self@),
    {
        match (self.program, self.cmdline) {
            (None, None) => {
                if self.print_opts.print_args || self.only_print_opts_thus_far {
                    Ok(
                        MainOptions {
                            print_opts: self.print_opts,
                            main_choice: MainChoice::PrintArgs,
                        },
                    )
                } else {
                    Err(OptionError::NothingSpecified)
                }
            },
            (None, Some(_)) => Err(OptionError::ProgramNotSpecified),
            (Some(_), None) => Err(OptionError::CmdLineNotSpecified),
            (Some(program), Some(cmdline)) => Ok(
                MainOptions {
                    print_opts: self.print_opts,
                    main_choice: MainChoice::ExecOpts(
                        ExecOptions {
                            program,
                            cmdline,
                            prepend_program: self.prepend_program,
                            strip_program: self.strip_program,
                            dry_run: self.dry_run,
                            split_and_print_inner_cmdline: self.split_and_print_inner_cmdline,
                        },
                    ),
                },
            ),
        }
    }

    /// Goes on after the option at `i`, which set a flag that is no print
    /// option.
    fn flag(self, i: usize) -> (outcome: Outcome)
        requires
            i < usize::MAX,
        ensures
            outcome@ == flag_set(i as int, self@),
    {
        Outcome::Next(i + 1, Reading { only_print_opts_thus_far: false, ..self })
    }

    /// Goes on after the print option at `i`.
    fn print_option(self, i: usize, print_opts: PrintOptions) -> (outcome: Outcome)
        requires
            i < usize::MAX,
        ensures
            outcome@ == print_option_set(i as int, self@, print_opts),
    {
        Outcome::Next(i + 1, Reading { print_opts, ..self })
    }
}

/// The program that an option sets: read from base64 if `base64` is set,
/// else copied.
fn program_value(value: &[u16], base64: bool) -> (program: Result<ProgramOpt, CommandLineError>)
    ensures
        match program {
            Ok(p) => Ok::<ProgramOptView, CommandLineError>(p@),
            Err(e) => Err(e),
        } == if base64 {
            decoded_program(decoded_units(value@))
        } else {
            Ok(ProgramOptView::Str(value@))
        },
{
    if base64 {
        match decode_utf16le_base64(value) {
            Ok(units) => Ok(ProgramOpt::Str(units)),
            Err(e) => Err(e),
        }
    } else {
        Ok(ProgramOpt::Str(copy_of(value)))
    }
}

/// The command line that an option sets: read from base64 if `base64` is
/// set, else copied.
fn cmdline_value(value: &[u16], base64: bool) -> (cmdline: Result<CmdlineOpt, CommandLineError>)
    ensures
        match cmdline {
            Ok(c) => Ok::<CmdlineOptView, CommandLineError>(c@),
            Err(e) => Err(e),
        } == if base64 {
            decoded_cmdline(decoded_units(value@))
        } else {
            Ok(CmdlineOptView::Str(value@))
        },
{
    if base64 {
        match decode_utf16le_base64(value) {
            Ok(units) => Ok(CmdlineOpt::Str(units)),
            Err(e) => Err(e),
        }
    } else {
        Ok(CmdlineOpt::Str(copy_of(value)))
    }
}

impl Reading {
    /// Reads the option at `i`, which sets the program to the value after
    /// it.
    fn program_from_value<'a>(self, args: &Vec<Arg<'a>>, i: usize, base64: bool) -> (outcome:
        Outcome)
        requires
            i < args@.len(),
        ensures
            outcome@ == program_step(
                arg_tokens(args@),
                i as int,
                i + 2,
                self@,
                if base64 {
                    decoded_program(decoded_units(value_after(arg_tokens(args@), i as int)))
                } else {
                    Ok(ProgramOptView::Str(value_after(arg_tokens(args@), i as int)))
                },
            ),
    {
        if self.program.is_some() {
            return Outcome::Done(Err(OptionError::OptionAlreadySet { arg: i }));
        }
        let count: usize = args.len();
        if i + 1 >= count {
            return Outcome::Done(Err(OptionError::MissingOptionValue { arg: i }));
        }
        match program_value(args[i + 1].arg.as_slice(), base64) {
            Ok(program) => Outcome::Next(
                i + 2,
                Reading { program: Some(program), only_print_opts_thus_far: false, ..self },
            ),
            Err(cause) => Outcome::Done(Err(OptionError::BadOptionValue { arg: i, cause })),
        }
    }

    /// Reads the option at `i`, which sets the program to `program`.
    fn program_fixed<'a>(self, args: &Vec<Arg<'a>>, i: usize, program: ProgramOpt) -> (outcome:
        Outcome)
        requires
            i < args@.len(),
        ensures
            outcome@ == program_step(arg_tokens(args@), i as int, i + 1, self@, Ok(program@)),
    {
        if self.program.is_some() {
            return Outcome::Done(Err(OptionError::OptionAlreadySet { arg: i }));
        }
        proof {
            assert(args.len() == args@.len());
        }
        Outcome::Next(
            i + 1,
            Reading { program: Some(program), only_print_opts_thus_far: false, ..self },
        )
    }

    /// Reads the option at `i`, which sets the command line to the value
    /// after it.
    fn cmdline_from_value<'a>(self, args: &Vec<Arg<'a>>, i: usize, base64: bool) -> (outcome:
        Outcome)
        requires
            i < args@.len(),
        ensures
            outcome@ == cmdline_step(
                arg_tokens(args@),
                i as int,
                i + 2,
                self@,
                if base64 {
                    decoded_cmdline(decoded_units(value_after(arg_tokens(args@), i as int)))
                } else {
                    Ok(CmdlineOptView::Str(value_after(arg_tokens(args@), i as int)))
                },
            ),
    {
        if self.cmdline.is_some() {
            return Outcome::Done(Err(OptionError::OptionAlreadySet { arg: i }));
        }
        let count: usize = args.len();
        if i + 1 >= count {
            return Outcome::Done(Err(OptionError::MissingOptionValue { arg: i }));
        }
        match cmdline_value(args[i + 1].arg.as_slice(), base64) {
            Ok(cmdline) => Outcome::Next(
                i + 2,
                Reading { cmdline: Some(cmdline), only_print_opts_thus_far: false, ..self },
            ),
            Err(cause) => Outcome::Done(Err(OptionError::BadOptionValue { arg: i, cause })),
        }
    }

    /// Reads the option at `i`, which sets the command line to `cmdline`.
    fn cmdline_fixed<'a>(self, args: &Vec<Arg<'a>>, i: usize, cmdline: CmdlineOpt) -> (outcome:
        Outcome)
        requires
            i < args@.len(),
        ensures
            outcome@ == cmdline_step(arg_tokens(args@), i as int, i + 1, self@, Ok(cmdline@)),
    {
        if self.cmdline.is_some() {
            return Outcome::Done(Err(OptionError::OptionAlreadySet { arg: i }));
        }
        proof {
            assert(args.len() == args@.len());
        }
        Outcome::Next(
            i + 1,
            Reading { cmdline: Some(cmdline), only_print_opts_thus_far: false, ..self },
        )
    }

    /// Reads the option at `i`.
    fn read_option<'a>(self, cmd_line: &'a [u16], args: &Vec<Arg<'a>>, i: usize) -> (outcome:
        Outcome)
        requires
            i < args@.len(),
        ensures
            outcome@ == option_step(cmd_line@, arg_tokens(args@), i as int, self@),
    {
        proof {
            assert(args.len() == args@.len());
        }
        let arg = &args[i];
        match classify(arg.arg.as_slice()) {
            None => Outcome::Done(Err(OptionError::UnknownOption { arg: i })),
            Some(Opt::DryRun) => Reading { dry_run: true, ..self }.flag(i),
            Some(Opt::PrependProgram) => Reading { prepend_program: true, ..self }.flag(i),
            Some(Opt::StripProgram) => Reading { strip_program: true, ..self }.flag(i),
            Some(Opt::SplitAndPrintInnerCmdline) => Reading {
                split_and_print_inner_cmdline: true,
                ..self
            }.flag(i),
            Some(Opt::PrintArgs) => {
                let print_opts = PrintOptions { print_args: true, ..self.print_opts };
                self.print_option(i, print_opts)
            },
            Some(Opt::Json) => {
                let print_opts = PrintOptions { json: true, ..self.print_opts };
                self.print_option(i, print_opts)
            },
            Some(Opt::Silent) => {
                let print_opts = PrintOptions { silent: true, ..self.print_opts };
                self.print_option(i, print_opts)
            },
            Some(Opt::PrintArgsOnly) => {
                if self.only_print_opts_thus_far {
                    Outcome::Done(
                        Ok(
                            MainOptions {
                                print_opts: PrintOptions { print_args: true, ..self.print_opts },
                                main_choice: MainChoice::PrintArgs,
                            },
                        ),
                    )
                } else {
                    Outcome::Done(Err(OptionError::ConflictingOptions { arg: i }))
                }
            },
            Some(Opt::Help) => Outcome::Done(
                Ok(MainOptions { print_opts: self.print_opts, main_choice: MainChoice::Help }),
            ),
            Some(Opt::Program) => self.program_from_value(args, i, false),
            Some(Opt::ProgramUtf16leBase64) => self.program_from_value(args, i, true),
            Some(Opt::ProgramFromCmdLine) => self.program_fixed(args, i, ProgramOpt::FromCmdLine),
            Some(Opt::ProgramIsNull) => self.program_fixed(args, i, ProgramOpt::Null),
            Some(Opt::CmdLineInArg) => self.cmdline_from_value(args, i, false),
            Some(Opt::CmdLineUtf16leBase64) => self.cmdline_from_value(args, i, true),
            Some(Opt::CmdLineIsRest) => {
                let rest = CmdlineOpt::Str(copy_of(get_rest(cmd_line, arg)));
                match self.cmdline_fixed(args, i, rest) {
                    Outcome::Next(_, reading) => Outcome::Done(reading.conclude()),
                    done => done,
                }
            },
            Some(Opt::CmdLineIsNull) => self.cmdline_fixed(args, i, CmdlineOpt::Null),
        }
    }
}

/// Reads the options of the tool from its arguments `args`, which were
/// split off `cmd_line`.
pub fn get_options<'a>(cmd_line: &'a [u16], args: &Vec<Arg<'a>>) -> (result: Result<
    MainOptions,
    OptionError,
>)
    ensures
        match result {
            Ok(options) => options_of(cmd_line@, arg_tokens(args@)) == Ok::<
                MainOptionsView,
                OptionError,
            >(options@),
            Err(e) => options_of(cmd_line@, arg_tokens(args@)) == Err::<
                MainOptionsView,
                OptionError,
            >(e),
        },
{
    if args.len() == 0 {
        return Ok(
            MainOptions {
                print_opts: PrintOptions { print_args: true, json: false, silent: false },
                main_choice: MainChoice::PrintArgs,
            },
        );
    }
    let mut reading = Reading::new();
    let mut i: usize = 1;
    while i < args.len()
        invariant
            1 <= i <= args@.len(),
            options_of(cmd_line@, arg_tokens(args@)) == options_from(
                cmd_line@,
                arg_tokens(args@),
                i as int,
                reading@,
            ),
        decreases args@.len() - i,
    {
        match reading.read_option(cmd_line, args, i) {
            Outcome::Next(index, next) => {
                i = index;
                reading = next;
            },
            Outcome::Done(result) => {
                return result;
            },
        }
    }
    reading.conclude()
}

} // verus!
