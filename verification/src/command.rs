//! The command dispatcher: each raw input line is classified, first match
//! winning, as blank, a prefixed meta-command, an exit directive, or query
//! text. The single prefix keeps meta-commands apart from query syntax; the
//! exit keywords are also accepted bare, in any ASCII letter case.
use vstd::prelude::*;
use vstd::string::*;

use crate::text::{ascii_case_eq, eq_ignore_ascii, str_eq, trim, trimmed};

verus! {

/// The meta-commands the shell handles locally, without the query engine:
/// the fixed help text, the table listing, and the notice for an
/// unrecognized token, which carries the offending line.
#[derive(Debug, PartialEq, Eq)]
pub enum MetaCommand {
    Help,
    Tables,
    Unknown(String),
}

/// What one input line means to the shell, produced fresh per line.
#[derive(Debug, PartialEq, Eq)]
pub enum Command {
    Blank,
    Meta(MetaCommand),
    ExitDirective,
    QueryText(String),
}

/// An exit directive in any of its accepted spellings: the prefixed forms
/// exactly, or the bare keywords up to ASCII letter case.
pub open spec fn is_exit_text(t: Seq<char>) -> bool {
    t == ".exit"@ || t == ".quit"@ || ascii_case_eq(t, "exit"@) || ascii_case_eq(t, "quit"@)
}

/// How the dispatcher reads one trimmed line, in precedence order: blank
/// first, then the meta-command prefix, then the bare exit keywords, and
/// query text otherwise.
pub open spec fn classifies(t: Seq<char>, c: Command) -> bool {
    if t.len() == 0 {
        c is Blank
    } else if t[0] == '.' {
        if t == ".exit"@ || t == ".quit"@ {
            c is ExitDirective
        } else if t == ".help"@ {
            c == Command::Meta(MetaCommand::Help)
        } else if t == ".tables"@ {
            c == Command::Meta(MetaCommand::Tables)
        } else {
            c matches Command::Meta(MetaCommand::Unknown(raw)) && raw@ == t
        }
    } else if ascii_case_eq(t, "exit"@) || ascii_case_eq(t, "quit"@) {
        c is ExitDirective
    } else {
        c matches Command::QueryText(q) && q@ == t
    }
}

/// Classifies one raw input line, after trimming surrounding white space.
pub fn classify(line: &str) -> (r: Command)
    ensures
        classifies(trimmed(line@), r),
{
    let t = trim(line);
    if t.unicode_len() == 0 {
        return Command::Blank;
    }
    if t.get_char(0) == '.' {
        if str_eq(t, ".exit") || str_eq(t, ".quit") {
            Command::ExitDirective
        } else if str_eq(t, ".help") {
            Command::Meta(MetaCommand::Help)
        } else if str_eq(t, ".tables") {
            Command::Meta(MetaCommand::Tables)
        } else {
            Command::Meta(MetaCommand::Unknown(String::from_str(t)))
        }
    } else if eq_ignore_ascii(t, "exit") || eq_ignore_ascii(t, "quit") {
        Command::ExitDirective
    } else {
        Command::QueryText(String::from_str(t))
    }
}

/// A classified line is an exit directive exactly when its text is one of
/// the accepted exit spellings, prefixed or bare in any letter case.
pub proof fn lemma_exit_directives(t: Seq<char>, c: Command)
    requires
        classifies(t, c),
    ensures
        c is ExitDirective <==> is_exit_text(t),
{
    reveal_strlit(".exit");
    reveal_strlit(".quit");
    reveal_strlit(".help");
    reveal_strlit(".tables");
    reveal_strlit("exit");
    reveal_strlit("quit");
    if t.len() > 0 && t[0] == '.' {
        assert(!ascii_case_eq(t, "exit"@));
        assert(!ascii_case_eq(t, "quit"@));
    }
    if t == ".exit"@ {
        assert(t[0] == '.');
    }
    if t == ".quit"@ {
        assert(t[0] == '.');
    }
}

} // verus!
