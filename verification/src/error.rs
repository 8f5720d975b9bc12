//! The ways in which an operation of this library can fail.

use vstd::prelude::*;

verus! {

/// Why a value could not be encoded or decoded.
#[derive(Clone, Copy, Debug, PartialEq, Eq, Structural)]
pub enum CommandLineError {
    /// An argument holds a zero unit, which would end the command line.
    ContainsNul,
    /// The name of the executable holds a quote, which cannot be escaped
    /// there.
    QuoteNotAllowed,
    /// The text that should hold base64 is not well-formed Unicode.
    NotUtf8,
    /// The text is not base64 in the standard alphabet with padding.
    InvalidBase64,
    /// The decoded bytes do not pair up into 16-bit units.
    OddByteCount,
}

/// Why a list of arguments does not say what the tool should do. Where an
/// error names an argument, `arg` is that argument's index in the list.
#[derive(Clone, Copy, Debug, PartialEq, Eq, Structural)]
pub enum OptionError {
    /// The argument names no option.
    UnknownOption { arg: usize },
    /// The option takes a value, and the list ends after it.
    MissingOptionValue { arg: usize },
    /// The option sets the program or the command line, which an earlier
    /// option has set already.
    OptionAlreadySet { arg: usize },
    /// The option may only come before all others, print options aside,
    /// and does not.
    ConflictingOptions { arg: usize },
    /// The value that follows the option could not be decoded.
    BadOptionValue { arg: usize, cause: CommandLineError },
    /// The list sets neither the program nor the command line, and asks
    /// for nothing else.
    NothingSpecified,
    /// The list sets the command line, but not the program.
    ProgramNotSpecified,
    /// The list sets the program, but not the command line.
    CmdLineNotSpecified,
}

/// Why the input that a user gave as JSON names no command line or no
/// program.
#[derive(Clone, Copy, Debug, PartialEq, Eq, Structural)]
pub enum InputError {
    /// The input gives both a list of arguments and a command line.
    ArgsAndCmdline,
    /// The input gives neither a list of arguments nor a command line.
    NoCmdline,
    /// The program cannot be read from such input.
    ProgramNotSupported,
}

/// Why the options do not say which process to start.
#[derive(Clone, Copy, Debug, PartialEq, Eq, Structural)]
pub enum LaunchError {
    /// The program is to be taken off the command line, but is not read
    /// from it.
    StripWithoutProgramFromCmdLine,
    /// The program is to be put before the command line, but no program is
    /// given.
    PrependWithoutGivenProgram,
    /// The program is to be read from the command line, and there is no
    /// command line.
    NoCmdLineForProgram,
    /// The program is to be read from the command line, which holds no
    /// argument.
    NoProgramInCmdLine,
    /// The program is to be put before the command line, and there is no
    /// command line.
    PrependToNullCmdLine,
    /// The program cannot be written at the head of a command line.
    ArgZero(CommandLineError),
    /// The input that the user gave names no command line or no program.
    Input(InputError),
}

} // verus!
