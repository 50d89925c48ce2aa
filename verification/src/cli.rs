//! The command line: what the program is asked to do.

use vstd::prelude::*;

verus! {

/// What a command line asks for.
#[derive(Debug, PartialEq, Eq)]
pub enum Invocation {
    /// Print the whole record of the song.
    Dump,
    /// Print this template with the fields of the song filled in.
    Render(String),
    /// The command line is not understood: say how the program is used.
    Usage,
}

impl Invocation {
    /// Reads the command line, the program's own name first: no argument
    /// behind the name asks for the record, one argument is the template to
    /// print, and anything else is not understood.
    pub fn from_args(args: &Vec<String>) -> (invocation: Invocation)
        ensures
            match invocation {
                Invocation::Dump => args.len() == 1,
                Invocation::Render(template) => args.len() == 2 && template@ == args[1]@,
                Invocation::Usage => args.len() != 1 && args.len() != 2,
            },
    {
        if args.len() == 1 {
            Invocation::Dump
        } else if args.len() == 2 {
            Invocation::Render(args[1].clone())
        } else {
            Invocation::Usage
        }
    }

    /// The status with which the program ends when it has done what was
    /// asked: 1 for a command line that is not understood, and 0 otherwise.
    pub open spec fn spec_exit_status(self) -> i32 {
        match self {
            Invocation::Usage => 1,
            _ => 0,
        }
    }

    /// The status with which the program ends when it has done what was
    /// asked.
    pub fn exit_status(&self) -> (status: i32)
        ensures
            status == self.spec_exit_status(),
    {
        match self {
            Invocation::Usage => 1,
            _ => 0,
        }
    }
}

} // verus!
