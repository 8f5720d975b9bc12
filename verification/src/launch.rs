//! From options to a process: which program and which command line the
//! options of the tool name.

use vstd::prelude::*;
use crate::commandline::{
    arg_zero_warning, escape_arg_zero, get_rest, parse_lp_cmd_line, arg_tokens,
};
use crate::error::{CommandLineError, InputError, LaunchError};
use crate::grammar::{rest_after, tokenize};
use crate::input::{cmdline_given, get_cmdline_from_json, get_program_from_json, JsonUserInput};
use crate::options::{ExecOptions, ProgramOpt};
use crate::quoting::encoded_arg_zero;
use crate::units::{copy_of, QUOTE, SPACE};

verus! {

/// Where the command line comes from, with the JSON document read.
pub enum CmdlineSource<'a> {
    Str(Vec<u16>),
    Null,
    Json(&'a JsonUserInput),
}

/// Where the program comes from, with the JSON document read.
pub enum ProgramSource<'a> {
    Str(Vec<u16>),
    Null,
    FromCmdLine,
    Json(&'a JsonUserInput),
}

/// What to hand to the system to start a process.
pub struct Launch {
    /// The program, or nothing where the system is to find it in the
    /// command line.
    pub program: Option<Vec<u16>>,
    /// The command line of the new process, if it gets one.
    pub cmdline: Option<Vec<u16>>,
    /// What the user should be told about the command line.
    pub warning: Option<&'static str>,
}

/// `Launch` as a value of specifications.
pub struct LaunchView {
    pub program: Option<Seq<u16>>,
    pub cmdline: Option<Seq<u16>>,
    pub warning: Option<&'static str>,
}

impl View for Launch {
    type V = LaunchView;

    open spec fn view(&self) -> LaunchView {
        LaunchView {
            program: units_view(self.program),
            cmdline: units_view(self.cmdline),
            warning: self.warning,
        }
    }
}

/// Optional units as a value of specifications.
pub open spec fn units_view(units: Option<Vec<u16>>) -> Option<Seq<u16>> {
    match units {
        Some(u) => Some(u@),
        None => None,
    }
}

/// Whether the options go together: the program can be taken off the
/// command line only where it is read from it, and can be put before the
/// command line only where it is given.
pub open spec fn exec_options_checked(options: ExecOptions) -> Result<(), LaunchError> {
    if options.strip_program && !(options.program is FromCmdLine) {
        Err(LaunchError::StripWithoutProgramFromCmdLine)
    } else if options.prepend_program && (options.program is FromCmdLine
        || options.program is Null) {
        Err(LaunchError::PrependWithoutGivenProgram)
    } else {
        Ok(())
    }
}

/// Refuses options that do not go together.
pub fn check_exec_options(options: &ExecOptions) -> (result: Result<(), LaunchError>)
    ensures
        result == exec_options_checked(*options),
{
    let from_cmd_line = match &options.program {
        ProgramOpt::FromCmdLine => true,
        _ => false,
    };
    let null = match &options.program {
        ProgramOpt::Null => true,
        _ => false,
    };
    if options.strip_program && !from_cmd_line {
        return Err(LaunchError::StripWithoutProgramFromCmdLine);
    }
    if options.prepend_program && (from_cmd_line || null) {
        return Err(LaunchError::PrependWithoutGivenProgram);
    }
    Ok(())
}

/// The command line that `source` names, if it names one.
pub open spec fn cmdline_resolved(source: CmdlineSource<'_>) -> Result<
    Option<Seq<u16>>,
    LaunchError,
> {
    match source {
        CmdlineSource::Str(units) => Ok(Some(units@)),
        CmdlineSource::Null => Ok(None),
        CmdlineSource::Json(input) => match cmdline_given(*input) {
            Ok(cmdline) => Ok(Some(cmdline)),
            Err(cause) => Err(LaunchError::Input(cause)),
        },
    }
}

/// Finds the command line that `source` names.
pub fn resolve_cmdline(source: CmdlineSource<'_>) -> (result: Result<
    Option<Vec<u16>>,
    LaunchError,
>)
    ensures
        match result {
            Ok(cmdline) => cmdline_resolved(source) == Ok::<Option<Seq<u16>>, LaunchError>(
                units_view(cmdline),
            ),
            Err(e) => cmdline_resolved(source) == Err::<Option<Seq<u16>>, LaunchError>(e),
        },
{
    match source {
        CmdlineSource::Str(units) => Ok(Some(units)),
        CmdlineSource::Null => Ok(None),
        CmdlineSource::Json(input) => match get_cmdline_from_json(input) {
            Ok(cmdline) => Ok(Some(cmdline)),
            Err(cause) => Err(LaunchError::Input(cause)),
        },
    }
}

/// The program that `source` names, and the command line that is left.
///
/// A program that is read from the command line is the first argument of
/// that command line under the general rule. With `strip_program` the
/// command line loses that argument and the separator after it.
pub open spec fn program_resolved(
    source: ProgramSource<'_>,
    cmdline: Option<Seq<u16>>,
    strip_program: bool,
) -> Result<(Option<Seq<u16>>, Option<Seq<u16>>), LaunchError> {
    match source {
        ProgramSource::Null => Ok((None, cmdline)),
        ProgramSource::Json(_) => Err(
            LaunchError::Input(InputError::ProgramNotSupported),
        ),
        ProgramSource::Str(program) => Ok((Some(program@), cmdline)),
        ProgramSource::FromCmdLine => match cmdline {
            None => Err(LaunchError::NoCmdLineForProgram),
            Some(line) => {
                let tokens = tokenize(line, false);
                if tokens.len() == 0 {
                    Err(LaunchError::NoProgramInCmdLine)
                } else {
                    Ok(
                        (
                            Some(tokens[0].text),
                            Some(
                                if strip_program {
                                    rest_after(line, tokens[0])
                                } else {
                                    line
                                },
                            ),
                        ),
                    )
                }
            },
        },
    }
}

/// The process to start once program and command line are found.
///
/// With `prepend_program` a program that there is goes before the command
/// line as the name of the executable, with one space between them.
pub open spec fn program_prepended(
    program: Option<Seq<u16>>,
    cmdline: Option<Seq<u16>>,
    prepend_program: bool,
) -> Result<LaunchView, LaunchError> {
    match program {
        Some(name) => if prepend_program {
            match cmdline {
                None => Err(LaunchError::PrependToNullCmdLine),
                Some(line) => if name.contains(QUOTE) {
                    Err(LaunchError::ArgZero(CommandLineError::QuoteNotAllowed))
                } else {
                    Ok(
                        LaunchView {
                            program,
                            cmdline: Some(encoded_arg_zero(name, false) + seq![SPACE] + line),
                            warning: arg_zero_warning(name, false),
                        },
                    )
                },
            }
        } else {
            Ok(LaunchView { program, cmdline, warning: None })
        },
        None => Ok(LaunchView { program, cmdline, warning: None }),
    }
}

/// The process that the options name, the command line being found
/// already.
pub open spec fn launch_of(
    source: ProgramSource<'_>,
    cmdline: Option<Seq<u16>>,
    strip_program: bool,
    prepend_program: bool,
) -> Result<LaunchView, LaunchError> {
    match program_resolved(source, cmdline, strip_program) {
        Err(e) => Err(e),
        Ok((program, left)) => program_prepended(program, left, prepend_program),
    }
}

/// Finds the program that `source` names, and what becomes of the command
/// line `cmdline`.
pub fn resolve_program(
    source: ProgramSource<'_>,
    cmdline: Option<Vec<u16>>,
    strip_program: bool,
    prepend_program: bool,
) -> (result: Result<Launch, LaunchError>)
    ensures
        match result {
            Ok(launch) => launch_of(source, units_view(cmdline), strip_program, prepend_program)
                == Ok::<LaunchView, LaunchError>(launch@),
            Err(e) => launch_of(source, units_view(cmdline), strip_program, prepend_program)
                == Err::<LaunchView, LaunchError>(e),
        },
{
    let mut new_cmdline: Option<Vec<u16>> = cmdline;
    let program: Option<Vec<u16>> = match source {
        ProgramSource::Null => None,
        ProgramSource::Json(input) => match get_program_from_json(input) {
            Ok(program) => Some(program),
            Err(cause) => {
                return Err(LaunchError::Input(cause));
            },
        },
        ProgramSource::Str(program) => Some(program),
        ProgramSource::FromCmdLine => {
            let line: Vec<u16> = match new_cmdline {
                None => {
                    return Err(LaunchError::NoCmdLineForProgram);
                },
                Some(line) => line,
            };
            let args = parse_lp_cmd_line(line.as_slice(), false);
            if args.len() == 0 {
                return Err(LaunchError::NoProgramInCmdLine);
            }
            let name = copy_of(args[0].arg.as_slice());
            let left = if strip_program {
                copy_of(get_rest(line.as_slice(), &args[0]))
            } else {
                copy_of(line.as_slice())
            };
            new_cmdline = Some(left);
            Some(name)
        },
    };
    if !prepend_program {
        return Ok(Launch { program, cmdline: new_cmdline, warning: None });
    }
    let name: Vec<u16> = match program {
        None => {
            return Ok(Launch { program: None, cmdline: new_cmdline, warning: None });
        },
        Some(name) => name,
    };
    let old_cmd: Vec<u16> = match new_cmdline {
        None => {
            return Err(LaunchError::PrependToNullCmdLine);
        },
        Some(old_cmd) => old_cmd,
    };
    let mut new_cmd: Vec<u16> = Vec::new();
    let warning = match escape_arg_zero(name.as_slice(), false) {
        Err(cause) => {
            return Err(LaunchError::ArgZero(cause));
        },
        Ok(escaped) => {
            match &escaped.escaped {
                std::borrow::Cow::Borrowed(slice) => {
                    new_cmd.extend_from_slice(slice);
                },
                std::borrow::Cow::Owned(vec) => {
                    new_cmd.extend_from_slice(vec.as_slice());
                },
            }
            escaped.warning
        },
    };
    new_cmd.push(SPACE);
    new_cmd.extend_from_slice(old_cmd.as_slice());
    assert(new_cmd@ =~= encoded_arg_zero(name@, false) + seq![SPACE] + old_cmd@);
    Ok(Launch { program: Some(name), cmdline: Some(new_cmd), warning })
}

} // verus!
