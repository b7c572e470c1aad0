//! The entry that launches the tool when the user logs in: where it is
//! registered and the command it runs.
use vstd::prelude::*;

verus! {

/// The per-user registry key whose values Windows runs at login.
pub const RUN_KEY_PATH: &'static str = "Software\\Microsoft\\Windows\\CurrentVersion\\Run";

/// The name of the value that holds the tool's launch command.
pub const VALUE_NAME: &'static str = "Ludusavi";

/// What the launch command passes after the executable, so that the tool
/// starts without showing its main window.
pub const MINIMIZED_SUFFIX: &'static str = "\" --minimized";

/// The launch command: the executable's path in double quotes, then the flag
/// that starts the tool minimized.
pub open spec fn spec_autostart_command(exe: Seq<char>) -> Seq<char> {
    seq!['"'] + exe + MINIMIZED_SUFFIX@
}

/// Builds the command that the autostart entry runs for the executable at
/// `exe`.
pub fn autostart_command(exe: &str) -> (command: String)
    ensures
        command@ == spec_autostart_command(exe@),
        command@ == seq!['"'] + exe@ + minimized_flag(),
{
    let mut command = String::from_str("\"");
    proof {
        reveal_strlit("\"");
        lemma_command_quotes_and_minimizes(exe@);
    }
    command.append(exe);
    command.append(MINIMIZED_SUFFIX);
    command
}

/// A closing double quote, a space, and the flag `--minimized`, character
/// by character.
pub open spec fn minimized_flag() -> Seq<char> {
    seq!['"', ' ', '-', '-', 'm', 'i', 'n', 'i', 'm', 'i', 'z', 'e', 'd']
}

/// For every executable path, the launch command is a double quote, the
/// path, a closing double quote and ` --minimized`: the path is quoted whole
/// and the tool always starts minimized.
pub proof fn lemma_command_quotes_and_minimizes(exe: Seq<char>)
    ensures
        spec_autostart_command(exe) == seq!['"'] + exe + minimized_flag(),
        spec_autostart_command(exe).len() == exe.len() + 14,
        spec_autostart_command(exe)[0] == '"',
        spec_autostart_command(exe).subrange(1, exe.len() + 1 as int) == exe,
        spec_autostart_command(exe).skip(exe.len() + 1 as int) == minimized_flag(),
{
    reveal_strlit("\" --minimized");
    assert(MINIMIZED_SUFFIX@ =~= minimized_flag());
    let command = spec_autostart_command(exe);
    assert(command.subrange(1, exe.len() + 1 as int) =~= exe);
    assert(command.skip(exe.len() + 1 as int) =~= minimized_flag());
}

} // verus!
