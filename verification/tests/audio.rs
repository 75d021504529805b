use writing_backend::audio::{AudioState, Liveness};
use writing_backend::player::Platform;

fn all_polls() -> Vec<Option<Liveness>> {
    vec![None, Some(Liveness::Running), Some(Liveness::Exited), Some(Liveness::PollFailed)]
}

fn playing(process: u32, path: &str) -> AudioState<u32> {
    let mut state: AudioState<u32> = AudioState::default();
    let _ = state.play_audio(Platform::Linux, path);
    assert_eq!(state.audio_started(path.to_string(), Ok(process)), Ok(()));
    state
}

#[test]
fn a_new_session_is_idle() {
    let state: AudioState<u32> = AudioState::default();
    assert_eq!(state.current_process, None);
    assert_eq!(state.current_song_path, None);
}

#[test]
fn nothing_plays_before_the_first_play() {
    let state: AudioState<u32> = AudioState::default();
    for poll in all_polls() {
        assert!(!state.is_audio_playing(poll));
    }
}

#[test]
fn first_play_supersedes_nothing_and_asks_for_the_player() {
    let mut state: AudioState<u32> = AudioState::default();
    let request = state.play_audio(Platform::Linux, "rain.mp3");
    assert_eq!(request.superseded, None);
    assert_eq!(request.command.program, "ffplay");
    assert_eq!(request.command.args, vec!["-nodisp", "-autoexit", "rain.mp3"]);
    assert_eq!(state.current_process, None);
}

#[test]
fn a_launched_process_is_tracked_with_its_path() {
    let state = playing(41, "rain.mp3");
    assert_eq!(state.current_process, Some(41));
    assert_eq!(state.current_song_path, Some("rain.mp3".to_string()));
}

#[test]
fn a_running_process_plays() {
    let state = playing(41, "rain.mp3");
    assert!(state.is_audio_playing(Some(Liveness::Running)));
}

#[test]
fn an_exited_process_does_not_play_and_stays_tracked() {
    let state = playing(41, "rain.mp3");
    assert!(!state.is_audio_playing(Some(Liveness::Exited)));
    assert_eq!(state.current_process, Some(41));
    assert_eq!(state.current_song_path, Some("rain.mp3".to_string()));
}

#[test]
fn a_failed_poll_does_not_play() {
    let state = playing(41, "rain.mp3");
    assert!(!state.is_audio_playing(Some(Liveness::PollFailed)));
    assert!(!state.is_audio_playing(None));
}

#[test]
fn second_play_supersedes_the_first_process() {
    let mut state = playing(41, "rain.mp3");
    let request = state.play_audio(Platform::MacOs, "wind.mp3");
    assert_eq!(request.superseded, Some(41));
    assert_eq!(request.command.program, "afplay");
    assert_eq!(request.command.args, vec!["wind.mp3"]);
    assert_eq!(state.current_process, None);
    assert_eq!(state.audio_started("wind.mp3".to_string(), Ok(42)), Ok(()));
    assert_eq!(state.current_process, Some(42));
    assert_eq!(state.current_song_path, Some("wind.mp3".to_string()));
}

#[test]
fn an_exited_process_is_still_superseded() {
    let mut state = playing(41, "rain.mp3");
    assert!(!state.is_audio_playing(Some(Liveness::Exited)));
    let request = state.play_audio(Platform::Linux, "wind.mp3");
    assert_eq!(request.superseded, Some(41));
}

#[test]
fn a_failed_launch_is_reported_with_its_cause() {
    let mut state: AudioState<u32> = AudioState::default();
    let _ = state.play_audio(Platform::Linux, "rain.mp3");
    let reply = state.audio_started(
        "rain.mp3".to_string(),
        Err("No such file or directory (os error 2)".to_string()),
    );
    assert_eq!(
        reply,
        Err("Failed to play audio: No such file or directory (os error 2)".to_string())
    );
}

#[test]
fn a_failed_launch_leaves_the_session_idle() {
    let mut state = playing(41, "rain.mp3");
    let request = state.play_audio(Platform::Linux, "missing.mp3");
    assert_eq!(request.superseded, Some(41));
    let reply = state.audio_started("missing.mp3".to_string(), Err("not found".to_string()));
    assert_eq!(reply, Err("Failed to play audio: not found".to_string()));
    assert_eq!(state.current_process, None);
    assert_eq!(state.current_song_path, Some("rain.mp3".to_string()));
    for poll in all_polls() {
        assert!(!state.is_audio_playing(poll));
    }
}

#[test]
fn a_failed_launch_with_an_empty_cause_keeps_the_prefix() {
    let mut state: AudioState<u32> = AudioState::default();
    let reply = state.audio_started("rain.mp3".to_string(), Err(String::new()));
    assert_eq!(reply, Err("Failed to play audio: ".to_string()));
}

#[test]
fn stop_hands_out_the_tracked_process() {
    let mut state = playing(41, "rain.mp3");
    assert_eq!(state.stop_audio(), Some(41));
    assert_eq!(state.current_process, None);
}

#[test]
fn stop_keeps_the_last_path() {
    let mut state = playing(41, "rain.mp3");
    let _ = state.stop_audio();
    assert_eq!(state.current_song_path, Some("rain.mp3".to_string()));
}

#[test]
fn nothing_plays_after_a_stop() {
    let mut state = playing(41, "rain.mp3");
    let _ = state.stop_audio();
    for poll in all_polls() {
        assert!(!state.is_audio_playing(poll));
    }
}

#[test]
fn stop_on_an_idle_session_changes_nothing() {
    let mut state: AudioState<u32> = AudioState::default();
    assert_eq!(state.stop_audio(), None);
    assert_eq!(state.current_process, None);
    assert_eq!(state.current_song_path, None);
}

#[test]
fn a_second_stop_hands_out_nothing() {
    let mut state = playing(41, "rain.mp3");
    assert_eq!(state.stop_audio(), Some(41));
    assert_eq!(state.stop_audio(), None);
    assert_eq!(state.current_process, None);
    assert_eq!(state.current_song_path, Some("rain.mp3".to_string()));
}

#[test]
fn play_after_stop_supersedes_nothing() {
    let mut state = playing(41, "rain.mp3");
    let _ = state.stop_audio();
    let request = state.play_audio(Platform::Windows, "wind.wav");
    assert_eq!(request.superseded, None);
    assert_eq!(request.command.program, "powershell");
}

#[test]
fn the_handle_may_be_any_type() {
    let mut state: AudioState<String> = AudioState::default();
    let _ = state.play_audio(Platform::Linux, "rain.mp3");
    assert_eq!(state.audio_started("rain.mp3".to_string(), Ok("player".to_string())), Ok(()));
    assert!(state.is_audio_playing(Some(Liveness::Running)));
    assert_eq!(state.stop_audio(), Some("player".to_string()));
}
