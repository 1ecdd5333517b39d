//! The file explorer's navigation state and its command rules.
use vstd::prelude::*;
use crate::line::{has_prefix, same_text, starts_with, strip_all_prefixes, strip_prefixes, trim, trim_text};

verus! {

/// A command typed in the file explorer.
#[derive(Debug)]
pub enum ExplorerCommand {
    Exit,
    /// `cd <path>`, holding the path as typed.
    ChangeDirectory(String),
    List,
    /// Anything else, holding the trimmed line.
    Unknown(String),
}

/// What the explorer's loop does after a command.
#[derive(Debug)]
pub enum ExplorerAction {
    /// Leave the explorer and go back to the menu.
    ReturnToMenu,
    /// List the current directory again and read the next command.
    Continue,
    /// Show the message, then continue.
    Report(String),
}

/// `line` decodes to `c`: the line is trimmed, `exit` and `ls` are matched
/// whole, and `cd ` introduces a path, itself trimmed, with every leading
/// repetition of `cd ` removed.
pub open spec fn decodes_to(line: Seq<char>, c: ExplorerCommand) -> bool {
    let t = trim_text(line);
    if t == "exit"@ {
        c is Exit
    } else if has_prefix(t, "cd "@) {
        c matches ExplorerCommand::ChangeDirectory(a) && a@ == trim_text(strip_prefixes(t, "cd "@))
    } else if t == "ls"@ {
        c is List
    } else {
        c matches ExplorerCommand::Unknown(u) && u@ == t
    }
}

/// Decodes one line of explorer input.
pub fn decode_command(line: &str) -> (r: ExplorerCommand)
    ensures
        decodes_to(line@, r),
{
    let t = trim(line);
    proof {
        reveal_strlit("cd ");
    }
    if same_text(t, "exit") {
        ExplorerCommand::Exit
    } else if starts_with(t, "cd ") {
        let rest = strip_all_prefixes(t, "cd ");
        ExplorerCommand::ChangeDirectory(String::from_str(trim(rest)))
    } else if same_text(t, "ls") {
        ExplorerCommand::List
    } else {
        ExplorerCommand::Unknown(String::from_str(t))
    }
}

/// `arg` resolved against `base` as a path join: an absolute `arg` replaces
/// `base`; otherwise it is appended after a `/` unless `base` is empty or
/// already ends in one. `..` is kept as written.
pub open spec fn join_path(base: Seq<char>, arg: Seq<char>) -> Seq<char> {
    if arg.len() > 0 && arg[0] == '/' {
        arg
    } else if base.len() == 0 || base.last() == '/' {
        base + arg
    } else {
        base + seq!['/'] + arg
    }
}

/// Joins `arg` onto `base` as `join_path` states.
pub fn join(base: &str, arg: &str) -> (r: String)
    ensures
        r@ == join_path(base@, arg@),
{
    proof {
        reveal_strlit("/");
    }
    if arg.unicode_len() > 0 && arg.get_char(0) == '/' {
        return String::from_str(arg);
    }
    let n = base.unicode_len();
    let mut s = String::from_str(base);
    if n > 0 && base.get_char(n - 1) != '/' {
        s.append("/");
    }
    s.append(arg);
    s
}

/// The explorer's state: the directory being browsed.
#[derive(Debug)]
pub struct ExplorerState {
    pub current_directory: String,
}

/// `Directory not found: <path>`.
pub open spec fn not_found_text(arg: Seq<char>) -> Seq<char> {
    "Directory not found: "@ + arg
}

/// `Unknown command: <line>`.
pub open spec fn unknown_text(line: Seq<char>) -> Seq<char> {
    "Unknown command: "@ + line
}

impl ExplorerState {
    /// Starts in the given working directory, or in `/` when there is none.
    pub fn new(working_directory: Option<String>) -> (r: ExplorerState)
        ensures
            r.current_directory@ == match working_directory {
                Some(d) => d@,
                None => "/"@,
            },
    {
        match working_directory {
            Some(d) => ExplorerState { current_directory: d },
            None => ExplorerState { current_directory: String::from_str("/") },
        }
    }

    /// The path that `cd arg` would move to.
    pub fn resolve(&self, arg: &str) -> (r: String)
        ensures
            r@ == join_path(self.current_directory@, arg@),
    {
        join(self.current_directory.as_str(), arg)
    }

    /// Applies a command. For `cd`, `target_is_directory` tells whether the
    /// resolved path exists and is a directory; other commands ignore it.
    pub fn handle(&mut self, cmd: &ExplorerCommand, target_is_directory: bool) -> (r:
        ExplorerAction)
        ensures
            match *cmd {
                ExplorerCommand::Exit => {
                    &&& r is ReturnToMenu
                    &&& final(self).current_directory == old(self).current_directory
                },
                ExplorerCommand::ChangeDirectory(arg) => if target_is_directory {
                    &&& r is Continue
                    &&& final(self).current_directory@ == join_path(
                        old(self).current_directory@,
                        arg@,
                    )
                } else {
                    &&& r matches ExplorerAction::Report(m) && m@ == not_found_text(arg@)
                    &&& final(self).current_directory == old(self).current_directory
                },
                ExplorerCommand::List => {
                    &&& r is Continue
                    &&& final(self).current_directory == old(self).current_directory
                },
                ExplorerCommand::Unknown(u) => {
                    &&& r matches ExplorerAction::Report(m) && m@ == unknown_text(u@)
                    &&& final(self).current_directory == old(self).current_directory
                },
            },
    {
        match cmd {
            ExplorerCommand::Exit => ExplorerAction::ReturnToMenu,
            ExplorerCommand::ChangeDirectory(arg) => {
                if target_is_directory {
                    let target = self.resolve(arg.as_str());
                    self.current_directory = target;
                    ExplorerAction::Continue
                } else {
                    let mut m = String::from_str("Directory not found: ");
                    m.append(arg.as_str());
                    ExplorerAction::Report(m)
                }
            },
            ExplorerCommand::List => ExplorerAction::Continue,
            ExplorerCommand::Unknown(u) => {
                let mut m = String::from_str("Unknown command: ");
                m.append(u.as_str());
                ExplorerAction::Report(m)
            },
        }
    }
}

} // verus!
