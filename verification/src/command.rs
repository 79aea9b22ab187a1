//! The command that the host is to run.

use vstd::prelude::*;
use crate::error::ResolveError;

verus! {

/// How to start the language server.
#[derive(Debug, PartialEq, Eq)]
pub struct Command {
    /// The program to run.
    pub command: String,
    /// Its arguments.
    pub args: Vec<String>,
    /// The environment variables to set for it, each with its value.
    pub env: Vec<(String, String)>,
}

/// Turns the end of a resolution into what the host gets: the command that
/// runs the binary, with no argument and no variable set, or the text of the
/// failure.
pub fn language_server_command(outcome: Result<String, ResolveError>) -> (result: Result<
    Command,
    String,
>)
    ensures
        match outcome {
            Ok(path) => result matches Ok(command) && command.command == path
                && command.args@.len() == 0 && command.env@.len() == 0,
            Err(error) => result matches Err(text) && text@ == error@.message(),
        },
{
    match outcome {
        Ok(path) => Ok(Command { command: path, args: Vec::new(), env: Vec::new() }),
        Err(error) => Err(error.message()),
    }
}

} // verus!
