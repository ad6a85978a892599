//! Commands that are run in the sessions of users.

use vstd::prelude::*;
use crate::text::{join, joined, texts_of};

verus! {

/// The users in whose sessions a command is run.
#[derive(Debug, PartialEq, Eq)]
pub enum BatchCommandUsers {
    All,
    /// The users whose names match the pattern.
    Pattern(String),
}

/// A command to run in the sessions of users.
#[derive(Debug, PartialEq, Eq)]
pub struct BatchCommandArgs {
    /// The program and its arguments.
    pub command: Vec<String>,
    pub users: BatchCommandUsers,
    /// Whether to wait for the command to end.
    pub wait: bool,
}

/// The words that open a terminal for the command that follows them.
pub open spec fn terminal_words() -> Seq<Seq<char>> {
    seq!["xfce4-terminal"@, "--disable-server"@, "-x"@]
}

/// The words that hand `line` to a shell.
pub open spec fn shell_words(line: Seq<char>) -> Seq<Seq<char>> {
    seq!["/usr/bin/env"@, "sh"@, "-c"@, line]
}

/// The program and arguments that run the words of `shell` as one line of
/// shell, in a terminal of its own where `terminal` asks for one.
pub open spec fn command_words(terminal: bool, shell: Seq<Seq<char>>) -> Seq<Seq<char>> {
    let line = shell_words(joined(shell, " "@));
    if terminal {
        terminal_words() + line
    } else {
        line
    }
}

impl BatchCommandArgs {
    /// The command that runs the words of `shell` as one line of shell: in
    /// a terminal where `terminal` asks for one, in the sessions of the users
    /// that `user_pattern` picks or of all where there is none, and waited
    /// for unless it is to be detached.
    pub fn new(detach: bool, shell: &Vec<String>, terminal: bool, user_pattern: Option<String>) -> (args:
        BatchCommandArgs)
        ensures
            texts_of(args.command@) == command_words(terminal, texts_of(shell@)),
            args.wait == !detach,
            match user_pattern {
                Some(pattern) => args.users is Pattern && args.users->Pattern_0@ == pattern@,
                None => args.users is All,
            },
    {
        let mut command: Vec<String> = Vec::new();

        if terminal {
            command.push("xfce4-terminal".to_owned());
            command.push("--disable-server".to_owned());
            command.push("-x".to_owned());
        }
        command.push("/usr/bin/env".to_owned());
        command.push("sh".to_owned());
        command.push("-c".to_owned());
        command.push(join(shell, " "));
        assert(texts_of(command@) =~= command_words(terminal, texts_of(shell@)));

        BatchCommandArgs {
            command,
            users: match user_pattern {
                Some(pattern) => BatchCommandUsers::Pattern(pattern),
                None => BatchCommandUsers::All,
            },
            wait: !detach,
        }
    }
}

/// The name of the level at which to log for a count of `-d` flags, if
/// there is a level for so many.
pub fn debug_level(debug: u8) -> (level: Option<&'static str>)
    ensures
        match debug {
            0 => level is Some && level->0@ == "WARN"@,
            1 => level is Some && level->0@ == "INFO"@,
            2 => level is Some && level->0@ == "DEBUG"@,
            3 => level is Some && level->0@ == "TRACE"@,
            _ => level is None,
        },
{
    match debug {
        0 => Some("WARN"),
        1 => Some("INFO"),
        2 => Some("DEBUG"),
        3 => Some("TRACE"),
        _ => None,
    }
}

} // verus!
