//! The quality-control driver's decisions, as plain data.
//!
//! The driver runs a fixed list of programs — `git`, `rustup` and `cargo`
//! — announcing each invocation on a line of its own and stopping at the
//! first one that fails.  This module holds the decidable part: which
//! program is invoked with which arguments, the announcement line, and
//! what the driver does with an invocation's exit status.  Actually
//! spawning the processes is left to the surrounding binary.

use vstd::prelude::*;

use crate::text::{join_with, spec_join};

verus! {

/// One program invocation: the program's name and its arguments, in
/// order.
#[derive(Clone, Debug, PartialEq, Eq)]
pub struct Invocation {
    /// The program to invoke.
    pub program: String,
    /// The arguments handed to it, in order.
    pub args: Vec<String>,
}

/// The line announcing an invocation before it is run: the word `Run:`,
/// the program, and the arguments separated by single spaces.
pub open spec fn spec_run_line(program: Seq<char>, args: Seq<Seq<char>>) -> Seq<char> {
    "Run: "@ + program + " "@ + spec_join(args, " "@)
}

/// Builds the invocation of `program` with the provided arguments.
pub fn call(program: &str, args: Vec<String>) -> (c: Invocation)
    ensures
        c.program@ == program@,
        c.args == args,
{
    Invocation { program: String::from_str(program), args }
}

/// The `rustup` command with the provided arguments.
pub fn rustup(args: Vec<String>) -> (c: Invocation)
    ensures
        c.program@ == "rustup"@,
        c.args == args,
{
    call("rustup", args)
}

/// The `cargo` command with the provided arguments.
pub fn cargo(args: Vec<String>) -> (c: Invocation)
    ensures
        c.program@ == "cargo"@,
        c.args == args,
{
    call("cargo", args)
}

/// The `git` command with the provided arguments.
pub fn git(args: Vec<String>) -> (c: Invocation)
    ensures
        c.program@ == "git"@,
        c.args == args,
{
    call("git", args)
}

/// Renders the announcement line for an invocation.
pub fn run_line(c: &Invocation) -> (s: String)
    ensures
        s@ == spec_run_line(c.program@, c.args.deep_view()),
{
    let mut s = String::from_str("Run: ");
    s.append(c.program.as_str());
    s.append(" ");
    s.append(join_with(&c.args, " ").as_str());
    proof {
        assert(s@ =~= spec_run_line(c.program@, c.args.deep_view()));
    }
    s
}

/// What the driver does once an invocation has ended.
#[derive(Clone, Copy, Debug, PartialEq, Eq, Structural)]
pub enum StatusAction {
    /// The invocation succeeded: go on with the next one.
    Proceed,
    /// Stop, exiting the driver with the given code.
    Exit(i32),
}

/// Decides on an invocation's exit status: exit code zero proceeds, any
/// other exit code stops the driver with that same code, and an
/// invocation ended without an exit code (killed by a signal) stops the
/// driver with code one.
pub fn status_action(code: Option<i32>) -> (a: StatusAction)
    ensures
        a == (match code {
            Some(c) => if c == 0 {
                StatusAction::Proceed
            } else {
                StatusAction::Exit(c)
            },
            None => StatusAction::Exit(1i32),
        }),
{
    match code {
        Some(c) => if c == 0 {
            StatusAction::Proceed
        } else {
            StatusAction::Exit(c)
        },
        None => StatusAction::Exit(1),
    }
}

} // verus!
