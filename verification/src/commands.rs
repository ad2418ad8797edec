//! The arguments of the commands that work from the config

use vstd::prelude::*;

use crate::config::GenerateMode;

verus! {

/// Arguments for `dist generate`
#[derive(Debug)]
pub struct GenerateArgs {
    /// Check whether the output differs without writing to disk
    pub check: bool,
    /// Which type(s) of config to generate
    pub modes: Vec<GenerateMode>,
}

/// Arguments for `dist linkage`
#[derive(Debug)]
pub struct LinkageArgs {
    /// Print human-readable output
    pub print_output: bool,
    /// Print output as JSON
    pub print_json: bool,
    /// Read linkage data from JSON rather than performing a live check
    pub from_json: Option<String>,
}

impl LinkageArgs {
    /// The arguments for `dist linkage` from its command-line flags: when
    /// neither kind of output is asked for, human-readable output is printed
    pub fn from_flags(print_output: bool, print_json: bool, from_json: Option<String>) -> (r: LinkageArgs)
        ensures
            r.print_output == (print_output || !print_json),
            r.print_json == print_json,
            r.from_json == from_json,
    {
        let mut options = LinkageArgs { print_output, print_json, from_json };
        if !options.print_output && !options.print_json {
            options.print_output = true;
        }
        options
    }
}

} // verus!
