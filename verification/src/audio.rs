//! The audio controller: at most one player process is tracked at a time.
//!
//! The controller never touches a process itself. Each operation says what
//! the host has to do (terminate this process, launch that command) and takes
//! what the host observed (the launch succeeded, the process still runs). The
//! type of a process handle is left to the host.

use vstd::prelude::*;
use vstd::string::*;
use crate::player::{player_command, player_command_of, Platform, PlayerCommand};

verus! {

/// The playback session. It is idle while `current_process` is `None` and
/// playing while a process is tracked. `current_song_path` is the path most
/// recently played with success; stopping does not erase it.
pub struct AudioState<P> {
    pub current_process: Option<P>,
    pub current_song_path: Option<String>,
}

/// The mathematical value of an [`AudioState`].
pub struct PlaybackSession<P> {
    pub process: Option<P>,
    pub path: Option<Seq<char>>,
}

impl<P> View for AudioState<P> {
    type V = PlaybackSession<P>;

    open spec fn view(&self) -> PlaybackSession<P> {
        PlaybackSession { process: self.current_process, path: self.current_song_path.deep_view() }
    }
}

/// What a non-blocking poll of the tracked process found.
#[derive(Clone, Copy, Debug, PartialEq, Eq, Structural)]
pub enum Liveness {
    /// The process has not ended yet.
    Running,
    /// The process has ended.
    Exited,
    /// The poll itself failed.
    PollFailed,
}

/// What the host has to do to play a file: first terminate `superseded`, if
/// there is one, then launch `command`.
pub struct PlayRequest<P> {
    pub superseded: Option<P>,
    pub command: PlayerCommand,
}

impl<P> PlaybackSession<P> {
    /// The session with which the application starts.
    pub open spec fn initial() -> Self {
        PlaybackSession { process: None, path: None }
    }

    /// No process is tracked.
    pub open spec fn is_idle(self) -> bool {
        self.process is None
    }

    /// The process that the next play request or stop hands out to be
    /// terminated: the tracked one, whether it still runs or not.
    pub open spec fn to_terminate(self) -> Option<P> {
        self.process
    }

    /// The session once its tracked process, if any, was handed out to be
    /// terminated.
    pub open spec fn released(self) -> Self {
        PlaybackSession { process: None, path: self.path }
    }

    /// The session once `process` was launched to play `path`.
    pub open spec fn started(self, path: Seq<char>, process: P) -> Self {
        PlaybackSession { process: Some(process), path: Some(path) }
    }

    /// Whether audio plays, given what a poll of the tracked process found
    /// (`None` where nothing was polled).
    pub open spec fn is_playing(self, poll: Option<Liveness>) -> bool {
        self.process is Some && poll == Some(Liveness::Running)
    }
}

/// The message of a play request whose launch failed with `cause`.
pub open spec fn play_failure_message(cause: Seq<char>) -> Seq<char> {
    "Failed to play audio: "@ + cause
}

impl<P> Default for AudioState<P> {
    fn default() -> (state: Self)
        ensures
            state@ == PlaybackSession::<P>::initial(),
    {
        AudioState { current_process: None, current_song_path: None }
    }
}

impl<P> AudioState<P> {
    /// Begins to play the file at `path`: whatever process is tracked is
    /// handed out to be terminated, whether it still runs or not, and the
    /// session is idle until the launch of the returned command is reported
    /// with [`AudioState::audio_started`].
    pub fn play_audio(&mut self, platform: Platform, path: &str) -> (request: PlayRequest<P>)
        ensures
            request.superseded == old(self)@.to_terminate(),
            request.command@ == player_command_of(platform, path@),
            final(self)@ == old(self)@.released(),
    {
        let superseded = self.current_process.take();
        let command = player_command(platform, path);
        PlayRequest { superseded, command }
    }

    /// Records how the launch of the player for `path` went, after
    /// [`AudioState::play_audio`] asked for it. A launched process becomes
    /// the tracked one. A failed launch leaves the session as it is, idle
    /// after a play request, and is reported with the cause in the message.
    pub fn audio_started(&mut self, path: String, launched: Result<P, String>) -> (reply: Result<
        (),
        String,
    >)
        ensures
            match launched {
                Ok(process) => reply is Ok && final(self)@ == old(self)@.started(path@, process),
                Err(cause) => *final(self) == *old(self) && match reply {
                    Ok(_) => false,
                    Err(message) => message@ == play_failure_message(cause@),
                },
            },
    {
        match launched {
            Ok(process) => {
                self.current_process = Some(process);
                self.current_song_path = Some(path);
                Ok(())
            },
            Err(cause) => Err(String::from_str("Failed to play audio: ").concat(cause.as_str())),
        }
    }

    /// Whether audio plays. `poll` is what a non-blocking poll of the tracked
    /// process found, `None` where nothing was polled. An observed exit does
    /// not clear the tracked process: the session stays as it is.
    pub fn is_audio_playing(&self, poll: Option<Liveness>) -> (playing: bool)
        ensures
            playing == self@.is_playing(poll),
    {
        match poll {
            Some(Liveness::Running) => self.current_process.is_some(),
            _ => false,
        }
    }

    /// Stops playback: the tracked process, if any, is handed out to be
    /// terminated and the session is idle. With no tracked process nothing
    /// changes.
    pub fn stop_audio(&mut self) -> (stopped: Option<P>)
        ensures
            stopped == old(self)@.to_terminate(),
            final(self)@ == old(self)@.released(),
            old(self)@.is_idle() ==> *final(self) == *old(self),
    {
        self.current_process.take()
    }
}

/// Supersession: when a second file is played while the process of a first
/// one is tracked, with no stop in between, the first process is the one
/// handed out to be terminated, and afterwards exactly the second process is
/// tracked, with the second path.
pub proof fn lemma_play_supersedes<P>(
    session: PlaybackSession<P>,
    first_path: Seq<char>,
    first: P,
    second_path: Seq<char>,
    second: P,
)
    ensures
        ({
            let playing_first = session.released().started(first_path, first);
            let playing_second = playing_first.released().started(second_path, second);
            &&& playing_first.to_terminate() == Some(first)
            &&& playing_second.process == Some(second)
            &&& playing_second.path == Some(second_path)
        }),
{
}

/// A play request whose launch fails leaves the session idle, although the
/// process tracked before it was already handed out to be terminated.
pub proof fn lemma_failed_play_is_idle<P>(session: PlaybackSession<P>)
    ensures
        session.released().is_idle(),
        session.released().path == session.path,
{
}

/// Stopping an idle session changes nothing: no process is handed out and the
/// session is the one it was. In particular this holds of the initial session.
pub proof fn lemma_idle_stop_is_noop<P>(session: PlaybackSession<P>)
    requires
        session.is_idle(),
    ensures
        session.to_terminate() is None,
        session.released() == session,
        session.released().is_idle(),
        PlaybackSession::<P>::initial().is_idle(),
{
}

/// Nothing plays before the first play request, nothing plays after a stop,
/// and nothing plays once the tracked process was seen to have exited or
/// could not be polled, whether or not a stop was requested.
pub proof fn lemma_not_playing<P>(session: PlaybackSession<P>, poll: Option<Liveness>)
    ensures
        !PlaybackSession::<P>::initial().is_playing(poll),
        !session.released().is_playing(poll),
        !session.is_playing(Some(Liveness::Exited)),
        !session.is_playing(Some(Liveness::PollFailed)),
        !session.is_playing(None),
{
}

} // verus!
