use handy::windows_session::{
    pause_next, resume_next, PauseEvent, PauseStage, ResumeEvent, ResumeOutcome, ResumeStage,
    ScanStage, SessionPick, SessionScan,
};

/// Runs a scan over a current session (`None` when there is none) and a
/// session list, where `true` marks a session that matches.
fn run_scan(current: Option<bool>, listed: &[bool]) -> (Option<SessionPick>, Vec<u32>) {
    let mut scan = SessionScan::new();
    let mut checked = Vec::new();
    loop {
        match scan.next_step() {
            ScanStage::CheckCurrent => scan.record_current(current.unwrap_or(false)),
            ScanStage::ListSessions => scan.record_count(listed.len() as u32),
            ScanStage::CheckAt { index, .. } => {
                checked.push(index);
                scan.record_check(listed[index as usize]);
            }
            ScanStage::Finished(pick) => return (pick, checked),
        }
    }
}

#[test]
fn current_session_that_matches_is_taken_first() {
    assert_eq!(run_scan(Some(true), &[true, true]), (Some(SessionPick::Current), vec![]));
}

#[test]
fn first_matching_listed_session_is_taken() {
    assert_eq!(
        run_scan(Some(false), &[false, true, true]),
        (Some(SessionPick::At(1)), vec![0, 1])
    );
    assert_eq!(run_scan(None, &[false, false, true]), (Some(SessionPick::At(2)), vec![0, 1, 2]));
}

#[test]
fn no_session_matches() {
    assert_eq!(run_scan(None, &[]), (None, vec![]));
    assert_eq!(run_scan(Some(false), &[false, false]), (None, vec![0, 1]));
}

fn run_pause(answers: Vec<PauseEvent>) -> PauseStage {
    let mut stage = PauseStage::FindSession;
    for event in answers {
        stage = pause_next(stage, event);
        if matches!(stage, PauseStage::Finished(_)) {
            break;
        }
    }
    stage
}

#[test]
fn pause_reports_the_source_app_id() {
    let stage = run_pause(vec![
        PauseEvent::SessionFound(true),
        PauseEvent::PlaybackInfo(true),
        PauseEvent::PauseEnabled(true),
        PauseEvent::PauseAccepted(true),
        PauseEvent::SourceId(Some("Spotify.exe".to_string())),
    ]);
    assert_eq!(stage, PauseStage::Finished(Some("Spotify.exe".to_string())));
}

#[test]
fn pause_stops_at_the_first_no() {
    assert_eq!(run_pause(vec![PauseEvent::SessionFound(false)]), PauseStage::Finished(None));
    assert_eq!(
        run_pause(vec![PauseEvent::SessionFound(true), PauseEvent::PlaybackInfo(false)]),
        PauseStage::Finished(None)
    );
    assert_eq!(
        run_pause(vec![
            PauseEvent::SessionFound(true),
            PauseEvent::PlaybackInfo(true),
            PauseEvent::PauseEnabled(false),
        ]),
        PauseStage::Finished(None)
    );
    assert_eq!(
        run_pause(vec![
            PauseEvent::SessionFound(true),
            PauseEvent::PlaybackInfo(true),
            PauseEvent::PauseEnabled(true),
            PauseEvent::PauseAccepted(false),
        ]),
        PauseStage::Finished(None)
    );
    assert_eq!(
        run_pause(vec![
            PauseEvent::SessionFound(true),
            PauseEvent::PlaybackInfo(true),
            PauseEvent::PauseEnabled(true),
            PauseEvent::PauseAccepted(true),
            PauseEvent::SourceId(None),
        ]),
        PauseStage::Finished(None)
    );
}

#[test]
fn resume_outcomes() {
    let step = |stage, event| resume_next(stage, event);
    assert_eq!(
        step(ResumeStage::FindSession, ResumeEvent::SessionFound(false)),
        ResumeStage::Finished(ResumeOutcome::SessionGone)
    );
    assert_eq!(
        step(ResumeStage::ReadPlaybackInfo, ResumeEvent::PlaybackInfo(false)),
        ResumeStage::Finished(ResumeOutcome::NoPlaybackInfo)
    );
    assert_eq!(
        step(ResumeStage::ReadStatus, ResumeEvent::Playing(true)),
        ResumeStage::Finished(ResumeOutcome::AlreadyPlaying)
    );
    assert_eq!(
        step(ResumeStage::ReadStatus, ResumeEvent::Playing(false)),
        ResumeStage::CheckPlayEnabled
    );
    assert_eq!(
        step(ResumeStage::CheckPlayEnabled, ResumeEvent::PlayEnabled(false)),
        ResumeStage::Finished(ResumeOutcome::PlayNotSupported)
    );
    assert_eq!(
        step(ResumeStage::RequestPlay, ResumeEvent::PlayAccepted(false)),
        ResumeStage::Finished(ResumeOutcome::PlayRequested(false))
    );
}
