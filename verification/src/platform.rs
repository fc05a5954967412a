//! What differs between the two families of operating system: where the
//! per-user configuration lives, how paths are joined, and which command
//! interpreter runs a command line.

use vstd::prelude::*;
use vstd::string::*;

verus! {

/// The family of operating system that the launcher runs on.
#[derive(Clone, Copy, Debug, PartialEq, Eq, Structural)]
pub enum Platform {
    Windows,
    Unix,
}

/// The name of the environment variable that holds the user's base directory.
pub open spec fn home_variable_of(platform: Platform) -> Seq<char> {
    match platform {
        Platform::Windows => "APPDATA"@,
        Platform::Unix => "HOME"@,
    }
}

/// The text that separates the parts of a path.
pub open spec fn separator_of(platform: Platform) -> Seq<char> {
    match platform {
        Platform::Windows => "\\"@,
        Platform::Unix => "/"@,
    }
}

/// The place of the configuration root below the user's base directory.
pub open spec fn config_subpath_of(platform: Platform) -> Seq<char> {
    match platform {
        Platform::Windows => "ivi"@,
        Platform::Unix => ".config/ivi"@,
    }
}

/// The command interpreter that runs a command line.
pub open spec fn shell_program_of(platform: Platform) -> Seq<char> {
    match platform {
        Platform::Windows => "cmd"@,
        Platform::Unix => "sh"@,
    }
}

/// The flag after which the command interpreter takes a command line.
pub open spec fn shell_flag_of(platform: Platform) -> Seq<char> {
    match platform {
        Platform::Windows => "/C"@,
        Platform::Unix => "-c"@,
    }
}

/// `name` placed inside the directory `dir`.
pub open spec fn joined(platform: Platform, dir: Seq<char>, name: Seq<char>) -> Seq<char> {
    dir + separator_of(platform) + name
}

/// The configuration root of a user whose base directory is `home`.
pub open spec fn config_root_of(platform: Platform, home: Seq<char>) -> Seq<char> {
    joined(platform, home, config_subpath_of(platform))
}

/// What is printed when the environment gives no base directory.
pub open spec fn missing_home_text(platform: Platform) -> Seq<char> {
    home_variable_of(platform) + " environmental variable is not set."@
}

impl Platform {
    /// The name of the environment variable to read the base directory from.
    pub fn home_variable(self) -> (r: &'static str)
        ensures
            r@ == home_variable_of(self),
    {
        match self {
            Platform::Windows => "APPDATA",
            Platform::Unix => "HOME",
        }
    }

    /// The path separator.
    pub fn separator(self) -> (r: &'static str)
        ensures
            r@ == separator_of(self),
    {
        match self {
            Platform::Windows => "\\",
            Platform::Unix => "/",
        }
    }

    /// The place of the configuration root below the base directory.
    pub fn config_subpath(self) -> (r: &'static str)
        ensures
            r@ == config_subpath_of(self),
    {
        match self {
            Platform::Windows => "ivi",
            Platform::Unix => ".config/ivi",
        }
    }

    /// The command interpreter.
    pub fn shell_program(self) -> (r: &'static str)
        ensures
            r@ == shell_program_of(self),
    {
        match self {
            Platform::Windows => "cmd",
            Platform::Unix => "sh",
        }
    }

    /// The flag that introduces a command line.
    pub fn shell_flag(self) -> (r: &'static str)
        ensures
            r@ == shell_flag_of(self),
    {
        match self {
            Platform::Windows => "/C",
            Platform::Unix => "-c",
        }
    }

    /// Places `name` inside the directory `dir`.
    pub fn join(self, dir: &str, name: &str) -> (r: String)
        ensures
            r@ == joined(self, dir@, name@),
    {
        String::from_str(dir).concat(self.separator()).concat(name)
    }

    /// The configuration root of a user whose base directory is `home`.
    pub fn config_root(self, home: &str) -> (r: String)
        ensures
            r@ == config_root_of(self, home@),
    {
        self.join(home, self.config_subpath())
    }

    /// The line to print when the environment gives no base directory.
    pub fn missing_home_message(self) -> (r: String)
        ensures
            r@ == missing_home_text(self),
    {
        String::from_str(self.home_variable()).concat(" environmental variable is not set.")
    }
}

} // verus!
