//! The external player that each platform uses to play an audio file.

use vstd::prelude::*;
use vstd::string::*;

verus! {

/// The operating system families for which a player is known.
#[derive(Clone, Copy, Debug, PartialEq, Eq, Structural)]
pub enum Platform {
    Linux,
    MacOs,
    Windows,
}

/// A process to launch: the program, looked up on the search path, and its
/// arguments in order.
#[derive(Debug, PartialEq, Eq)]
pub struct PlayerCommand {
    pub program: String,
    pub args: Vec<String>,
}

/// The mathematical value of a [`PlayerCommand`].
pub struct PlayerCommandView {
    pub program: Seq<char>,
    pub args: Seq<Seq<char>>,
}

impl View for PlayerCommand {
    type V = PlayerCommandView;

    open spec fn view(&self) -> PlayerCommandView {
        PlayerCommandView { program: self.program@, args: self.args.deep_view() }
    }
}

/// The program that plays audio on `platform`: a command-line media player,
/// a native play-to-completion utility, or a scripting host.
pub open spec fn player_program(platform: Platform) -> Seq<char> {
    match platform {
        Platform::Linux => "ffplay"@,
        Platform::MacOs => "afplay"@,
        Platform::Windows => "powershell"@,
    }
}

/// The script that the scripting host runs to play the file at `path` to its
/// end. The path is put between single quotes as it is.
pub open spec fn sound_player_script(path: Seq<char>) -> Seq<char> {
    "(New-Object Media.SoundPlayer '"@ + path + "').PlaySync();"@
}

/// The arguments with which the player of `platform` plays the file at
/// `path`, without a window and until the file ends.
pub open spec fn player_args(platform: Platform, path: Seq<char>) -> Seq<Seq<char>> {
    match platform {
        Platform::Linux => seq!["-nodisp"@, "-autoexit"@, path],
        Platform::MacOs => seq![path],
        Platform::Windows => seq!["-c"@, sound_player_script(path)],
    }
}

/// The command that plays the file at `path` on `platform`.
pub open spec fn player_command_of(platform: Platform, path: Seq<char>) -> PlayerCommandView {
    PlayerCommandView { program: player_program(platform), args: player_args(platform, path) }
}

/// Builds the command that plays the file at `path` on `platform`.
pub fn player_command(platform: Platform, path: &str) -> (command: PlayerCommand)
    ensures
        command@ == player_command_of(platform, path@),
{
    let mut args: Vec<String> = Vec::new();
    let program = match platform {
        Platform::Linux => {
            args.push(String::from_str("-nodisp"));
            args.push(String::from_str("-autoexit"));
            args.push(String::from_str(path));
            String::from_str("ffplay")
        },
        Platform::MacOs => {
            args.push(String::from_str(path));
            String::from_str("afplay")
        },
        Platform::Windows => {
            let script = String::from_str("(New-Object Media.SoundPlayer '").concat(path).concat(
                "').PlaySync();",
            );
            args.push(String::from_str("-c"));
            args.push(script);
            String::from_str("powershell")
        },
    };
    assert(args.deep_view() =~= player_args(platform, path@));
    PlayerCommand { program, args }
}

} // verus!
