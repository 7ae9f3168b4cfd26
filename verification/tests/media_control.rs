use handy::manager::{BackendCall, MediaControlManager, ScriptedBackend};
use handy::session::{PausedPlaybackState, SessionState};

fn paused_session() -> PausedPlaybackState {
    PausedPlaybackState::Session("test-session".to_string())
}

fn manager_with(
    pause_result: Result<Option<PausedPlaybackState>, String>,
) -> MediaControlManager<ScriptedBackend> {
    MediaControlManager::with_backend(ScriptedBackend::new(pause_result, Ok(())))
}

fn pause_calls(manager: &MediaControlManager<ScriptedBackend>) -> usize {
    manager
        .get_backend()
        .calls()
        .iter()
        .filter(|c| matches!(c, BackendCall::Pause(_)))
        .count()
}

fn resume_calls(manager: &MediaControlManager<ScriptedBackend>) -> usize {
    manager
        .get_backend()
        .calls()
        .iter()
        .filter(|c| matches!(c, BackendCall::Resume(..)))
        .count()
}

#[test]
fn pause_disabled_skips_backend() {
    let mut manager = manager_with(Ok(Some(paused_session())));

    manager.pause_for_recording_inner(false, true);

    assert_eq!(pause_calls(&manager), 0);
}

#[test]
fn pause_called_while_not_recording_is_a_noop() {
    let mut manager = manager_with(Ok(Some(paused_session())));

    manager.pause_for_recording_inner(true, false);

    assert_eq!(pause_calls(&manager), 0);
}

#[test]
fn repeated_pause_during_one_recording_session_only_pauses_once() {
    let mut manager = manager_with(Ok(Some(paused_session())));

    manager.pause_for_recording_inner(true, true);
    manager.pause_for_recording_inner(true, true);

    assert_eq!(pause_calls(&manager), 1);
}

#[test]
fn stop_or_cancel_resumes_only_once() {
    let mut manager = manager_with(Ok(Some(paused_session())));

    manager.pause_for_recording_inner(true, true);
    manager.resume_after_recording_inner();
    manager.resume_after_recording_inner();

    assert_eq!(resume_calls(&manager), 1);
}

#[test]
fn resume_is_skipped_when_nothing_was_paused() {
    let mut manager = manager_with(Ok(None));

    manager.pause_for_recording_inner(true, true);
    manager.resume_after_recording_inner();

    assert_eq!(pause_calls(&manager), 1);
    assert_eq!(resume_calls(&manager), 0);
}

#[test]
fn paused_state_is_cleared_after_resume_attempt() {
    let mut manager = MediaControlManager::with_backend(ScriptedBackend::new(
        Ok(Some(paused_session())),
        Err("resume failed".to_string()),
    ));

    manager.pause_for_recording_inner(true, true);
    manager.resume_after_recording_inner();
    manager.resume_after_recording_inner();

    assert_eq!(resume_calls(&manager), 1);
}

/// The pause call is still under way when the recording ends: the pause
/// result that comes in afterwards is resumed at once, so media is never
/// left paused. The interleaving is driven step by step.
#[test]
fn stale_pause_is_resumed_when_resume_happens_first() {
    let mut state = SessionState::new();

    let token = state.start_pause(true, true).expect("pause is owed a call");
    let resumed_now = state.take_for_resume();
    assert!(resumed_now.is_none());
    let resume_now = state.finish_pause(token, Ok(Some(paused_session())));

    assert_eq!(resume_now, Some(paused_session()));
    assert!(state.take_for_resume().is_none());
}

#[test]
fn pause_after_nothing_played_is_attempted_again() {
    let mut manager = manager_with(Ok(None));

    manager.pause_for_recording_inner(true, true);
    manager.pause_for_recording_inner(true, true);

    assert_eq!(pause_calls(&manager), 2);
}

#[test]
fn failed_pause_leaves_nothing_to_resume() {
    let mut manager = manager_with(Err("pause failed".to_string()));

    manager.pause_for_recording_inner(true, true);
    manager.resume_after_recording();

    assert_eq!(pause_calls(&manager), 1);
    assert_eq!(resume_calls(&manager), 0);
}

#[test]
fn resume_hands_back_what_was_paused() {
    let mut manager = manager_with(Ok(Some(PausedPlaybackState::Global)));

    manager.pause_for_recording_inner(true, true);
    manager.resume_after_recording();

    assert_eq!(
        manager.get_backend().calls(),
        &vec![
            BackendCall::Pause(Ok(Some(PausedPlaybackState::Global))),
            BackendCall::Resume(PausedPlaybackState::Global, Ok(())),
        ]
    );
}

#[test]
fn a_new_recording_session_pauses_again_after_resume() {
    let mut manager = manager_with(Ok(Some(paused_session())));

    manager.pause_for_recording_inner(true, true);
    manager.resume_after_recording_inner();
    manager.pause_for_recording_inner(true, true);
    manager.resume_after_recording_inner();

    assert_eq!(pause_calls(&manager), 2);
    assert_eq!(resume_calls(&manager), 2);
}

#[test]
fn stale_pause_after_stop_and_cancel_is_resumed() {
    let mut state = SessionState::new();

    let token = state.start_pause(true, true).expect("pause is owed a call");
    assert!(state.take_for_resume().is_none());
    assert!(state.take_for_resume().is_none());
    let resume_now = state.finish_pause(token, Ok(Some(paused_session())));

    assert_eq!(resume_now, Some(paused_session()));
    assert!(state.take_for_resume().is_none());
}

#[test]
fn overlapping_stale_pauses_are_both_resumed() {
    for first_arrives_first in [true, false] {
        let mut state = SessionState::new();

        let t1 = state.start_pause(true, true).expect("first session pauses");
        assert!(state.take_for_resume().is_none());
        let t2 = state.start_pause(true, true).expect("second session pauses");
        assert!(state.take_for_resume().is_none());

        let p1 = PausedPlaybackState::Global;
        let p2 = paused_session();
        if first_arrives_first {
            assert_eq!(state.finish_pause(t1, Ok(Some(p1.clone()))), Some(p1));
            assert_eq!(state.finish_pause(t2, Ok(Some(p2.clone()))), Some(p2));
        } else {
            assert_eq!(state.finish_pause(t2, Ok(Some(p2.clone()))), Some(p2));
            assert_eq!(state.finish_pause(t1, Ok(Some(p1.clone()))), Some(p1));
        }
        assert!(state.take_for_resume().is_none());
    }
}

#[test]
fn stale_pause_that_paused_nothing_resumes_nothing() {
    let mut state = SessionState::new();

    let token = state.start_pause(true, true).expect("pause is owed a call");
    assert!(state.take_for_resume().is_none());
    assert_eq!(state.finish_pause(token, Ok(None)), None);
    assert_eq!(state.finish_pause(token, Err("failed".to_string())), None);
}

#[test]
fn stale_pause_result_does_not_touch_the_newer_session() {
    let mut state = SessionState::new();

    let old_token = state.start_pause(true, true).expect("first pause");
    assert!(state.take_for_resume().is_none());
    let new_token = state.start_pause(true, true).expect("second session pauses");
    assert_ne!(old_token, new_token);

    let resume_now = state.finish_pause(old_token, Ok(Some(PausedPlaybackState::Global)));
    assert_eq!(resume_now, Some(PausedPlaybackState::Global));

    assert_eq!(state.finish_pause(new_token, Ok(Some(paused_session()))), None);
    assert_eq!(state.take_for_resume(), Some(paused_session()));
}

#[test]
fn a_second_pause_is_refused_while_one_is_in_flight() {
    let mut state = SessionState::new();

    assert!(state.start_pause(true, true).is_some());
    assert!(state.start_pause(true, true).is_none());
}

#[test]
fn missing_audio_manager_counts_as_recording() {
    let mut manager = manager_with(Ok(Some(paused_session())));

    manager.pause_for_recording(false, None);
    assert_eq!(pause_calls(&manager), 0);
    manager.pause_for_recording(true, Some(false));
    assert_eq!(pause_calls(&manager), 0);
    manager.pause_for_recording(true, None);
    assert_eq!(pause_calls(&manager), 1);
}

#[test]
fn default_backend_manager_resumes_nothing_it_did_not_pause() {
    let mut manager: MediaControlManager<ScriptedBackend> = MediaControlManager::new();
    manager.pause_for_recording(true, Some(true));
    manager.resume_after_recording();
    manager.resume_after_recording();
    assert_eq!(manager.get_backend().calls(), &vec![BackendCall::Pause(Ok(None))]);
}
