//! What a user may give in a JSON document in place of options.

use vstd::prelude::*;
use crate::error::InputError;
use crate::units::copy_of;

verus! {

/// The fields of the JSON document, each as code units.
#[derive(Debug)]
pub struct JsonUserInput {
    pub args: Option<Vec<Vec<u16>>>,
    pub cmdline: Option<Vec<u16>>,
    pub program: Option<Vec<u16>>,
}

/// The units of the file name that stands for standard input: `-`.
pub open spec fn stdin_name() -> Seq<u16> {
    seq![0x2du16]
}

/// Whether `file_name` stands for standard input.
pub fn is_filename_stdin(file_name: &[u16]) -> (stdin: bool)
    ensures
        stdin == (file_name@ == stdin_name()),
{
    let stdin = file_name.len() == 1 && file_name[0] == 0x2d;
    assert(stdin ==> file_name@ =~= stdin_name());
    stdin
}

/// The command line that a document gives.
///
/// A document with a command line gives that command line. One with a list
/// of arguments in its place gives the empty command line. One with both,
/// or with neither, is refused.
pub open spec fn cmdline_given(input: JsonUserInput) -> Result<Seq<u16>, InputError> {
    match (input.cmdline, input.args) {
        (Some(_), Some(_)) => Err(InputError::ArgsAndCmdline),
        (Some(cmdline), None) => Ok(cmdline@),
        (None, Some(_)) => Ok(Seq::empty()),
        (None, None) => Err(InputError::NoCmdline),
    }
}

/// The command line that `json_user_input` gives.
pub fn get_cmdline_from_json(json_user_input: &JsonUserInput) -> (result: Result<
    Vec<u16>,
    InputError,
>)
    ensures
        match result {
            Ok(cmdline) => cmdline_given(*json_user_input) == Ok::<Seq<u16>, InputError>(
                cmdline@,
            ),
            Err(e) => cmdline_given(*json_user_input) == Err::<Seq<u16>, InputError>(e),
        },
{
    if json_user_input.cmdline.is_some() && json_user_input.args.is_some() {
        return Err(InputError::ArgsAndCmdline);
    }
    match &json_user_input.cmdline {
        Some(cmdline) => Ok(copy_of(cmdline.as_slice())),
        None => {
            if json_user_input.args.is_some() {
                Ok(Vec::new())
            } else {
                Err(InputError::NoCmdline)
            }
        },
    }
}

/// The program that `json_user_input` gives. No document gives one: the
/// program cannot be read from JSON.
pub fn get_program_from_json(json_user_input: &JsonUserInput) -> (result: Result<
    Vec<u16>,
    InputError,
>)
    ensures
        result == Err::<Vec<u16>, InputError>(InputError::ProgramNotSupported),
{
    Err(InputError::ProgramNotSupported)
}

} // verus!
