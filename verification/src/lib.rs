//! Windows command lines as sequences of 16-bit code units: splitting a raw
//! command line into arguments the way the C runtime does, and writing
//! arguments back into a command line with the matching quoting rules.

pub mod codec;
pub mod commandline;
pub mod error;
pub mod grammar;
pub mod input;
pub mod launch;
pub mod options;
pub mod output;
pub mod quoting;
pub mod round_trip;
pub mod text;
pub mod units;
pub mod wstr;
