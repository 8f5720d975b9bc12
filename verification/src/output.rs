//! What is shown of a command line and its arguments: every value that a
//! report holds, as plain data for a printer to lay out.

use vstd::prelude::*;
use crate::commandline::Arg;
use crate::text::{shown_text, to_text, well_formed_utf16};
use crate::units::copy_of;

verus! {

/// What is shown of one argument.
#[derive(Debug)]
pub struct ArgReport {
    /// The argument's position in the list.
    pub number: usize,
    /// The argument's value as text.
    pub arg: String,
    /// Whether `arg` lost something of the value.
    pub arg_lossy: bool,
    /// The argument's value.
    pub arg_utf16: Vec<u16>,
    /// The argument as it stood in the command line, as text.
    pub raw: String,
    /// Whether `raw` lost something of the units.
    pub raw_lossy: bool,
    /// The argument as it stood in the command line.
    pub raw_utf16: Vec<u16>,
    /// Where the argument began in the command line.
    pub raw_start: usize,
    /// Where the argument ended in the command line.
    pub raw_end: usize,
}

/// What is shown of a command line.
#[derive(Debug)]
pub struct CmdlineReport {
    /// The command line as text.
    pub cmdline: String,
    /// Whether `cmdline` lost something of the units.
    pub cmdline_lossy: bool,
    /// The command line.
    pub cmdline_utf16: Vec<u16>,
    /// Its arguments, in order.
    pub args: Vec<ArgReport>,
}

impl ArgReport {
    /// The report shows `arg`: its number, its value and its raw units,
    /// each as units and as text, with a flag wherever the text is not
    /// exact, and its range.
    pub open spec fn shows(&self, arg: Arg<'_>) -> bool {
        &&& self.number == arg.number
        &&& self.arg@ == shown_text(arg.arg@)
        &&& self.arg_lossy == !well_formed_utf16(arg.arg@)
        &&& self.arg_utf16@ == arg.arg@
        &&& self.raw@ == shown_text(arg.raw@)
        &&& self.raw_lossy == !well_formed_utf16(arg.raw@)
        &&& self.raw_utf16@ == arg.raw@
        &&& self.raw_start == arg.range.start
        &&& self.raw_end == arg.range.end
    }
}

impl CmdlineReport {
    /// The report shows the command line `cmdline` and each of `args`.
    pub open spec fn shows(&self, cmdline: Seq<u16>, args: Seq<Arg<'_>>) -> bool {
        &&& self.cmdline@ == shown_text(cmdline)
        &&& self.cmdline_lossy == !well_formed_utf16(cmdline)
        &&& self.cmdline_utf16@ == cmdline
        &&& self.args@.len() == args.len()
        &&& forall|i: int| 0 <= i < args.len() ==> (#[trigger] self.args@[i]).shows(args[i])
    }
}

/// Gathers what is shown of `arg`.
pub fn report_arg(arg: &Arg<'_>) -> (report: ArgReport)
    ensures
        report.shows(*arg),
{
    let value = to_text(arg.arg.as_slice());
    let raw = to_text(arg.raw);
    ArgReport {
        number: arg.number,
        arg: value.text,
        arg_lossy: value.lossy,
        arg_utf16: copy_of(arg.arg.as_slice()),
        raw: raw.text,
        raw_lossy: raw.lossy,
        raw_utf16: copy_of(arg.raw),
        raw_start: arg.range.start,
        raw_end: arg.range.end,
    }
}

/// Gathers what is shown of the command line `cmdline` and of the
/// arguments `args` that it was split into.
pub fn report_cmdline(cmdline: &[u16], args: &Vec<Arg<'_>>) -> (report: CmdlineReport)
    ensures
        report.shows(cmdline@, args@),
{
    let text = to_text(cmdline);
    let mut reports: Vec<ArgReport> = Vec::new();
    let mut i: usize = 0;
    while i < args.len()
        invariant
            i <= args@.len(),
            reports@.len() == i,
            forall|j: int| 0 <= j < i ==> (#[trigger] reports@[j]).shows(args@[j]),
        decreases args@.len() - i,
    {
        reports.push(report_arg(&args[i]));
        i += 1;
    }
    CmdlineReport {
        cmdline: text.text,
        cmdline_lossy: text.lossy,
        cmdline_utf16: copy_of(cmdline),
        args: reports,
    }
}

} // verus!
