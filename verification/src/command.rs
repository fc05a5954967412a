//! The launcher's command line: a program name, a subcommand, and the
//! subcommand's positional arguments.

use crate::text::{same_text, texts};
use vstd::prelude::*;
use vstd::string::*;

verus! {

/// What the user asked for.
#[derive(Clone, Debug, PartialEq, Eq)]
pub enum Command {
    /// Write the configuration of the machine `vm_id`, made from `image`.
    Create { image: String, vm_id: String },
    /// Bring the machine `vm_id` up.
    Up { vm_id: String },
    /// A subcommand that the launcher does not know.
    Unsupported { name: String },
}

/// The mathematical content of a [`Command`].
pub enum CommandView {
    Create { image: Seq<char>, vm_id: Seq<char> },
    Up { vm_id: Seq<char> },
    Unsupported { name: Seq<char> },
}

impl View for Command {
    type V = CommandView;

    open spec fn view(&self) -> CommandView {
        match self {
            Command::Create { image, vm_id } => CommandView::Create {
                image: image@,
                vm_id: vm_id@,
            },
            Command::Up { vm_id } => CommandView::Up { vm_id: vm_id@ },
            Command::Unsupported { name } => CommandView::Unsupported { name: name@ },
        }
    }
}

/// A command line that names too little.
#[derive(Clone, Copy, Debug, PartialEq, Eq, Structural)]
pub enum UsageError {
    /// Nothing follows the program name.
    MissingSubcommand,
    /// `create` without both an image and a machine.
    MissingCreateArguments,
    /// `up` without a machine.
    MissingUpArguments,
}

/// The reading of a command line. The first word is the program's name and
/// is passed over; the second is the subcommand; arguments beyond those
/// that the subcommand takes are ignored.
pub open spec fn parsed(args: Seq<Seq<char>>) -> Result<CommandView, UsageError> {
    if args.len() < 2 {
        Err(UsageError::MissingSubcommand)
    } else if args[1] == "create"@ {
        if args.len() < 4 {
            Err(UsageError::MissingCreateArguments)
        } else {
            Ok(CommandView::Create { image: args[2], vm_id: args[3] })
        }
    } else if args[1] == "up"@ {
        if args.len() < 3 {
            Err(UsageError::MissingUpArguments)
        } else {
            Ok(CommandView::Up { vm_id: args[2] })
        }
    } else {
        Ok(CommandView::Unsupported { name: args[1] })
    }
}

/// What is printed for an unknown subcommand.
pub open spec fn unsupported_text(name: Seq<char>) -> Seq<char> {
    "Unsupported sub-command \""@ + name + "\""@
}

/// What is printed for a command line that names too little.
pub open spec fn usage_text(error: UsageError) -> Seq<char> {
    match error {
        UsageError::MissingSubcommand => "Missing sub-command: expected create or up"@,
        UsageError::MissingCreateArguments => "Usage: create <image> <vm_id>"@,
        UsageError::MissingUpArguments => "Usage: up <vm_id>"@,
    }
}

/// The view of a reading, for contracts.
pub open spec fn reading_view(r: Result<Command, UsageError>) -> Result<CommandView, UsageError> {
    match r {
        Ok(command) => Ok(command@),
        Err(error) => Err(error),
    }
}

/// Reads a command line.
pub fn parse_command(args: &Vec<String>) -> (r: Result<Command, UsageError>)
    ensures
        reading_view(r) == parsed(texts(args@)),
{
    if args.len() < 2 {
        return Err(UsageError::MissingSubcommand);
    }
    let name = args[1].as_str();
    if same_text(name, "create") {
        if args.len() < 4 {
            Err(UsageError::MissingCreateArguments)
        } else {
            Ok(Command::Create { image: args[2].clone(), vm_id: args[3].clone() })
        }
    } else if same_text(name, "up") {
        if args.len() < 3 {
            Err(UsageError::MissingUpArguments)
        } else {
            Ok(Command::Up { vm_id: args[2].clone() })
        }
    } else {
        Ok(Command::Unsupported { name: args[1].clone() })
    }
}

/// Writes the line to print for an unknown subcommand.
pub fn unsupported_message(name: &str) -> (r: String)
    ensures
        r@ == unsupported_text(name@),
{
    String::from_str("Unsupported sub-command \"").concat(name).concat("\"")
}

impl UsageError {
    /// Writes the line to print for this error.
    pub fn message(self) -> (r: String)
        ensures
            r@ == usage_text(self),
    {
        match self {
            UsageError::MissingSubcommand => String::from_str(
                "Missing sub-command: expected create or up",
            ),
            UsageError::MissingCreateArguments => String::from_str("Usage: create <image> <vm_id>"),
            UsageError::MissingUpArguments => String::from_str("Usage: up <vm_id>"),
        }
    }
}

} // verus!
