use handy::mpris::{
    pause_next, resume_next, PauseEvent, PauseStage, ResumeEvent, ResumeOutcome, ResumeStage,
    is_paused_status, is_playing_status, mpris_candidates, service_missing_error, SearchStep,
    TargetSearch, PLAYERCTLD_SERVICE,
};
use handy::platform::{
    adapter_result, i32_decimal, media_key_result, parse_adapter_output, session_missing_error,
    MediaKeyError,
};

fn names(list: &[&str]) -> Vec<String> {
    list.iter().map(|s| s.to_string()).collect()
}

/// Runs a search, answering each probe from `playing`, and returns the
/// services probed and the outcome.
fn run_search(bus: &[&str], playing: &[&str]) -> (Vec<String>, Option<String>) {
    let mut search = TargetSearch::new(&names(bus));
    let mut probed = Vec::new();
    loop {
        match search.next_step() {
            SearchStep::Probe(name) => {
                let plays = playing.contains(&name.as_str());
                probed.push(name);
                search.record(plays);
            }
            SearchStep::Finished(target) => return (probed, target),
        }
    }
}

#[test]
fn service_missing_errors_are_recognised() {
    assert!(service_missing_error(
        "org.freedesktop.DBus.Error.ServiceUnknown: The name is not activatable"
    ));
    assert!(service_missing_error("org.freedesktop.DBus.Error.NameHasNoOwner"));
    assert!(service_missing_error("Method error: UnknownMethod"));
    assert!(service_missing_error("xx UnknownObject yy"));
    assert!(!service_missing_error("org.freedesktop.DBus.Error.AccessDenied"));
    assert!(!service_missing_error(""));
}

#[test]
fn candidates_are_mpris_players_sorted_without_playerctld() {
    let bus = names(&[
        "org.mpris.MediaPlayer2.vlc",
        ":1.42",
        PLAYERCTLD_SERVICE,
        "org.mpris.MediaPlayer2.firefox.instance_1_12",
        "org.freedesktop.DBus",
        "org.mpris.MediaPlayer2.chromium",
    ]);
    assert_eq!(
        mpris_candidates(&bus),
        names(&[
            "org.mpris.MediaPlayer2.chromium",
            "org.mpris.MediaPlayer2.firefox.instance_1_12",
            "org.mpris.MediaPlayer2.vlc",
        ])
    );
}

#[test]
fn first_playing_player_in_sorted_order_is_chosen() {
    let (probed, target) = run_search(
        &[
            "org.mpris.MediaPlayer2.vlc",
            "org.mpris.MediaPlayer2.spotify",
            "org.mpris.MediaPlayer2.chromium",
            PLAYERCTLD_SERVICE,
        ],
        &["org.mpris.MediaPlayer2.vlc", "org.mpris.MediaPlayer2.spotify", PLAYERCTLD_SERVICE],
    );
    assert_eq!(
        probed,
        names(&["org.mpris.MediaPlayer2.chromium", "org.mpris.MediaPlayer2.spotify"])
    );
    assert_eq!(target.as_deref(), Some("org.mpris.MediaPlayer2.spotify"));
}

#[test]
fn playerctld_is_the_fallback_when_no_player_plays() {
    let (probed, target) = run_search(
        &["org.mpris.MediaPlayer2.vlc", PLAYERCTLD_SERVICE],
        &[PLAYERCTLD_SERVICE],
    );
    assert_eq!(probed, names(&["org.mpris.MediaPlayer2.vlc", PLAYERCTLD_SERVICE]));
    assert_eq!(target.as_deref(), Some(PLAYERCTLD_SERVICE));
}

#[test]
fn nothing_is_chosen_when_nothing_plays() {
    let (probed, target) = run_search(&["org.mpris.MediaPlayer2.vlc", ":1.7"], &[]);
    assert_eq!(probed, names(&["org.mpris.MediaPlayer2.vlc"]));
    assert_eq!(target, None);
    let (probed, target) = run_search(&[], &[]);
    assert!(probed.is_empty());
    assert_eq!(target, None);
}

#[test]
fn playback_status_words_are_exact() {
    assert!(is_playing_status("Playing"));
    assert!(!is_playing_status("Paused"));
    assert!(!is_playing_status("playing"));
    assert!(is_paused_status("Paused"));
    assert!(!is_paused_status("Stopped"));
}

#[test]
fn media_key_status_codes() {
    assert!(media_key_result(0).is_ok());
    assert!(matches!(media_key_result(-3), Err(MediaKeyError::EventSource)));
    assert!(matches!(media_key_result(-4), Err(MediaKeyError::KeyEvents)));
    assert!(matches!(media_key_result(-1), Err(MediaKeyError::UnexpectedStatus(-1))));
}

#[test]
fn adapter_output_is_read_around_white_space() {
    assert_eq!(parse_adapter_output("true\n"), Ok(true));
    assert_eq!(parse_adapter_output("  false "), Ok(false));
    assert_eq!(
        parse_adapter_output(" maybe \n"),
        Err("Unexpected MediaRemote state adapter output: maybe".to_string())
    );
}

#[test]
fn missing_windows_session_codes() {
    assert!(session_missing_error(0x80070490u32 as i32));
    assert!(session_missing_error(0x80004005u32 as i32));
    assert!(!session_missing_error(0));
}

#[test]
fn media_key_error_texts() {
    assert_eq!(
        media_key_result(-3).unwrap_err().message(),
        "Failed to create CoreGraphics event source for media key"
    );
    assert_eq!(
        media_key_result(-4).unwrap_err().message(),
        "Failed to create CoreGraphics media key events"
    );
    assert_eq!(
        media_key_result(7).unwrap_err().message(),
        "Media key command returned unexpected status 7"
    );
    assert_eq!(
        media_key_result(-12).unwrap_err().message(),
        "Media key command returned unexpected status -12"
    );
}

#[test]
fn decimal_matches_to_string() {
    for n in [0, 5, 9, 10, 99, 100, 12345, -1, -10, i32::MAX, i32::MIN] {
        assert_eq!(i32_decimal(n), n.to_string());
    }
}

#[test]
fn adapter_run_results() {
    assert_eq!(
        adapter_result(false, "true", "  failed to load adapter: /tmp/x\n"),
        Err("MediaRemote state adapter failed: failed to load adapter: /tmp/x".to_string())
    );
    assert_eq!(adapter_result(true, " true\n", "ignored"), Ok(true));
    assert_eq!(adapter_result(true, "false", ""), Ok(false));
    assert_eq!(
        adapter_result(true, "yes", ""),
        Err("Unexpected MediaRemote state adapter output: yes".to_string())
    );
}

#[test]
fn linux_pause_pauses_only_a_present_playing_player() {
    let name = "org.mpris.MediaPlayer2.vlc".to_string();

    let stage = pause_next(PauseStage::FindTarget, PauseEvent::TargetFound(Some(name.clone())));
    assert_eq!(stage, PauseStage::OpenPlayer(name.clone()));
    let stage = pause_next(stage, PauseEvent::PlayerOpened(true));
    assert_eq!(stage, PauseStage::ReadStatus(name.clone()));
    let stage = pause_next(stage, PauseEvent::Status("Playing".to_string()));
    assert_eq!(stage, PauseStage::RequestPause(name.clone()));
    let stage = pause_next(stage, PauseEvent::PauseCalled);
    assert_eq!(stage, PauseStage::Finished(Some(name.clone())));

    assert_eq!(
        pause_next(PauseStage::FindTarget, PauseEvent::TargetFound(None)),
        PauseStage::Finished(None)
    );
    assert_eq!(
        pause_next(PauseStage::OpenPlayer(name.clone()), PauseEvent::PlayerOpened(false)),
        PauseStage::Finished(None)
    );
    assert_eq!(
        pause_next(PauseStage::ReadStatus(name), PauseEvent::Status("Paused".to_string())),
        PauseStage::Finished(None)
    );
}

#[test]
fn linux_resume_plays_only_a_present_paused_player() {
    assert_eq!(
        resume_next(ResumeStage::OpenPlayer, ResumeEvent::PlayerOpened(false)),
        ResumeStage::Finished(ResumeOutcome::Vanished)
    );
    assert_eq!(
        resume_next(ResumeStage::OpenPlayer, ResumeEvent::PlayerOpened(true)),
        ResumeStage::ReadStatus
    );
    assert_eq!(
        resume_next(ResumeStage::ReadStatus, ResumeEvent::Status("Playing".to_string())),
        ResumeStage::Finished(ResumeOutcome::NotPaused("Playing".to_string()))
    );
    assert_eq!(
        resume_next(ResumeStage::ReadStatus, ResumeEvent::Status("Paused".to_string())),
        ResumeStage::RequestPlay
    );
    assert_eq!(
        resume_next(ResumeStage::RequestPlay, ResumeEvent::PlayCalled),
        ResumeStage::Finished(ResumeOutcome::Resumed)
    );
}
