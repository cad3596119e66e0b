//! The line-based REPL's task: evaluate one line, or end the session on the
//! exit line.

use vstd::prelude::*;
use vstd::string::StringExecFns;

verus! {

/// A line read from the REPL, queued for evaluation.
pub struct CliEvalTask {
    pub script: String,
    pub exit: bool,
}

impl CliEvalTask {
    /// A task for one input line; the line `exit` (with its newline) asks the
    /// run loop to stop.
    pub fn new(script: String) -> (r: CliEvalTask)
        ensures
            r.script@ == script@,
            r.exit == (script@ == "exit\n"@),
    {
        let sentinel = String::from_str("exit\n");
        let exit = script == sentinel;
        CliEvalTask { script, exit }
    }

    /// Whether the run loop ends once the line is handled.
    pub fn stop(&self) -> (r: bool)
        ensures
            r == self.exit,
    {
        self.exit
    }

    /// Whether executing evaluates the line: the exit line is not
    /// evaluated.
    pub fn evaluates(&self) -> (r: bool)
        ensures
            r == !self.exit,
    {
        !self.exit
    }
}

/// What the REPL prints after a result: the result's text, a newline, and the
/// next prompt.
pub fn result_line(result: &String) -> (r: String)
    ensures
        r@ == result@ + "\n> "@,
{
    result.clone().concat("\n> ")
}

} // verus!
