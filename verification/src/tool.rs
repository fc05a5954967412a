//! How the virtualization tool is started: through the platform's command
//! interpreter, with one command line, inside a machine's directory.

use crate::platform::{shell_flag_of, shell_program_of, Platform};
use crate::text::texts;
use vstd::prelude::*;
use vstd::string::*;

verus! {

/// A program to start, its arguments, and the directory to start it in.
#[derive(Clone, Debug, PartialEq, Eq)]
pub struct Invocation {
    pub program: String,
    pub args: Vec<String>,
    pub dir: String,
}

/// The mathematical content of an [`Invocation`].
pub struct InvocationView {
    pub program: Seq<char>,
    pub args: Seq<Seq<char>>,
    pub dir: Seq<char>,
}

impl View for Invocation {
    type V = InvocationView;

    open spec fn view(&self) -> InvocationView {
        InvocationView { program: self.program@, args: texts(self.args@), dir: self.dir@ }
    }
}

/// The command line that asks the tool for `subcommand`: the tool's name,
/// one space, and the subcommand as it stands, neither quoted nor escaped.
pub open spec fn tool_command_line(subcommand: Seq<char>) -> Seq<char> {
    "vagrant"@ + " "@ + subcommand
}

/// The start of the tool for `subcommand` in the directory `dir`: the
/// platform's command interpreter, its flag, and the command line.
pub open spec fn tool_invocation(
    platform: Platform,
    subcommand: Seq<char>,
    dir: Seq<char>,
) -> InvocationView {
    InvocationView {
        program: shell_program_of(platform),
        args: seq![shell_flag_of(platform), tool_command_line(subcommand)],
        dir,
    }
}

/// Writes the command line that asks the tool for `subcommand`.
pub fn command_line(subcommand: &str) -> (r: String)
    ensures
        r@ == tool_command_line(subcommand@),
{
    String::from_str("vagrant").concat(" ").concat(subcommand)
}

/// Says how to start the tool for `subcommand` in the directory `dir`.
pub fn vagrant(platform: Platform, subcommand: &str, dir: &str) -> (r: Invocation)
    ensures
        r@ == tool_invocation(platform, subcommand@, dir@),
{
    let mut args: Vec<String> = Vec::new();
    args.push(String::from_str(platform.shell_flag()));
    args.push(command_line(subcommand));
    assert(texts(args@) =~= seq![shell_flag_of(platform), tool_command_line(subcommand@)]);
    Invocation {
        program: String::from_str(platform.shell_program()),
        args,
        dir: String::from_str(dir),
    }
}

} // verus!
