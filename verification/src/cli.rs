//! The command line: which command an argument names.

use vstd::prelude::*;
use vstd::string::*;

verus! {

/// The commands of the program.
#[derive(Clone, Copy, Debug, PartialEq, Eq, Structural)]
pub enum Command {
    List,
    Tap,
    Probe,
    ScrollDbg,
    Run,
    Menu,
    Edit,
    Help,
    Unknown,
}

/// Whether a text starts with another.
pub open spec fn starts_with(s: Seq<char>, prefix: Seq<char>) -> bool {
    s.len() >= prefix.len() && s.take(prefix.len() as int) == prefix
}

/// The command that the first argument names. No argument, and the process serial number that
/// some systems pass to a double-clicked application, stand for the menu-bar application.
pub open spec fn command_of(arg: Seq<char>) -> Command {
    if arg.len() == 0 || starts_with(arg, "-psn"@) || arg == "menu"@ {
        Command::Menu
    } else if arg == "list"@ {
        Command::List
    } else if arg == "tap"@ {
        Command::Tap
    } else if arg == "probe"@ {
        Command::Probe
    } else if arg == "scrolldbg"@ {
        Command::ScrollDbg
    } else if arg == "run"@ {
        Command::Run
    } else if arg == "edit"@ {
        Command::Edit
    } else if arg == "help"@ || arg == "-h"@ || arg == "--help"@ {
        Command::Help
    } else {
        Command::Unknown
    }
}

fn has_prefix(s: &str, prefix: &str) -> (r: bool)
    ensures
        r == starts_with(s@, prefix@),
{
    let n: usize = prefix.unicode_len();
    if s.unicode_len() < n {
        return false;
    }
    let mut i: usize = 0;
    while i < n
        invariant
            i <= n == prefix@.len() <= s@.len(),
            forall|j: int| 0 <= j < i ==> s@[j] == prefix@[j],
        decreases n - i,
    {
        if s.get_char(i) != prefix.get_char(i) {
            assert(s@.take(n as int)[i as int] != prefix@[i as int]);
            return false;
        }
        i += 1;
    }
    assert(s@.take(n as int) =~= prefix@);
    true
}

fn same(s: &str, t: &str) -> (r: bool)
    ensures
        r == (s@ == t@),
{
    let r: bool = s.unicode_len() == t.unicode_len() && has_prefix(s, t);
    proof {
        if s@.len() == t@.len() {
            assert(s@.take(t@.len() as int) =~= s@);
        }
    }
    r
}

/// Finds the command that the first argument names; pass the empty text where there is none.
pub fn parse_command(arg: &str) -> (r: Command)
    ensures
        r == command_of(arg@),
{
    if arg.unicode_len() == 0 || has_prefix(arg, "-psn") || same(arg, "menu") {
        Command::Menu
    } else if same(arg, "list") {
        Command::List
    } else if same(arg, "tap") {
        Command::Tap
    } else if same(arg, "probe") {
        Command::Probe
    } else if same(arg, "scrolldbg") {
        Command::ScrollDbg
    } else if same(arg, "run") {
        Command::Run
    } else if same(arg, "edit") {
        Command::Edit
    } else if same(arg, "help") || same(arg, "-h") || same(arg, "--help") {
        Command::Help
    } else {
        Command::Unknown
    }
}

} // verus!
