//! Command-line arguments handed to a run: a verbosity level and the command
//! to execute on the remote machine, given as words.

use vstd::prelude::*;
use vstd::string::*;
use crate::text::join_strings;
use crate::text::spec_join;
use crate::text::spec_trim;
use crate::text::trim_str;

verus! {

/// A run's arguments.
#[derive(Clone, Debug)]
pub struct Args {
    /// How many verbosity flags were given.
    pub verbose: u8,
    /// The words of the remote command, as given.
    pub command: Vec<String>,
}

impl Args {
    pub fn new(verbose: u8, command: Vec<String>) -> (r: Args)
        ensures
            r.verbose == verbose,
            r.command == command,
    {
        Args { verbose, command }
    }

    /// The remote command line: the words joined with single spaces, with
    /// surrounding whitespace removed.
    pub fn command(&self) -> (r: String)
        ensures
            r@ == spec_trim(spec_join(self.command.deep_view(), " "@)),
    {
        let joined = join_strings(&self.command, " ");
        trim_str(joined.as_str())
    }
}

} // verus!
