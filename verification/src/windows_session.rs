//! Decisions of the Windows media control over the global system media
//! transport controls: which media session is paused or resumed, and when a
//! pause or resume stops early.
//!
//! The WinRT calls are made by the caller. It asks each of these step
//! machines what to do next, makes that call, and reports what came back.

use vstd::prelude::*;

verus! {

/// The session a [`SessionScan`] settled on.
#[derive(Clone, Copy, Debug, PartialEq, Eq)]
pub enum SessionPick {
    /// The session Windows reports as current.
    Current,
    /// The session at this index of the session list.
    At(u32),
}

/// Where a [`SessionScan`] stands.
#[derive(Clone, Copy, Debug, PartialEq, Eq)]
pub enum ScanStage {
    /// Check the current session, if there is one.
    CheckCurrent,
    /// Enumerate the sessions and report how many there are.
    ListSessions,
    /// Check the session at `index` of `count`.
    CheckAt { index: u32, count: u32 },
    /// The search is over.
    Finished(Option<SessionPick>),
}

/// The stage after the current session was checked.
pub open spec fn after_current(matched: bool) -> ScanStage {
    if matched {
        ScanStage::Finished(Some(SessionPick::Current))
    } else {
        ScanStage::ListSessions
    }
}

/// The stage after the session list was found to hold `count` sessions.
pub open spec fn after_listing(count: u32) -> ScanStage {
    if count == 0 {
        ScanStage::Finished(None)
    } else {
        ScanStage::CheckAt { index: 0, count }
    }
}

/// The stage after the session at `index` of `count` was checked.
pub open spec fn after_check_at(index: u32, count: u32, matched: bool) -> ScanStage {
    if matched {
        ScanStage::Finished(Some(SessionPick::At(index)))
    } else if index + 1 >= count {
        ScanStage::Finished(None)
    } else {
        ScanStage::CheckAt { index: (index + 1) as u32, count }
    }
}

/// Searches the media sessions for the first one that matches (that plays,
/// or that belongs to a given app): the current session first, then the
/// listed sessions in order.
pub struct SessionScan {
    stage: ScanStage,
    /// The answers for the listed sessions, by index.
    answers: Ghost<Seq<bool>>,
}

impl SessionScan {
    /// The stage the scan is at.
    pub closed spec fn stage(&self) -> ScanStage {
        self.stage
    }

    /// The answers recorded for the listed sessions, by index.
    pub closed spec fn answers(&self) -> Seq<bool> {
        self.answers@
    }

    /// The stage agrees with the answers: the scan is at the first index
    /// not yet answered, and every answer so far was "no match".
    pub closed spec fn inv(&self) -> bool {
        match self.stage {
            ScanStage::CheckCurrent | ScanStage::ListSessions => self.answers@.len() == 0,
            ScanStage::CheckAt { index, count } => {
                &&& index < count
                &&& self.answers@.len() == index
                &&& forall|i: int| 0 <= i < index ==> !#[trigger] self.answers@[i]
            },
            ScanStage::Finished(Some(SessionPick::At(i))) => {
                &&& self.answers@.len() == i + 1
                &&& self.answers@[i as int]
                &&& forall|j: int| 0 <= j < i ==> !#[trigger] self.answers@[j]
            },
            ScanStage::Finished(_) => forall|j: int|
                0 <= j < self.answers@.len() ==> !#[trigger] self.answers@[j],
        }
    }

    /// A scan that starts with the current session.
    pub fn new() -> (s: SessionScan)
        ensures
            s.inv(),
            s.stage() == ScanStage::CheckCurrent,
            s.answers() == Seq::<bool>::empty(),
    {
        SessionScan { stage: ScanStage::CheckCurrent, answers: Ghost(Seq::empty()) }
    }

    /// What to do next.
    pub fn next_step(&self) -> (stage: ScanStage)
        ensures
            stage == self.stage(),
    {
        self.stage
    }

    /// Records whether there is a current session that matches.
    pub fn record_current(&mut self, matched: bool)
        requires
            old(self).inv(),
            old(self).stage() == ScanStage::CheckCurrent,
        ensures
            final(self).inv(),
            final(self).stage() == after_current(matched),
            final(self).answers() == old(self).answers(),
    {
        self.stage = if matched {
            ScanStage::Finished(Some(SessionPick::Current))
        } else {
            ScanStage::ListSessions
        };
    }

    /// Records how many sessions the session list holds.
    pub fn record_count(&mut self, count: u32)
        requires
            old(self).inv(),
            old(self).stage() == ScanStage::ListSessions,
        ensures
            final(self).inv(),
            final(self).stage() == after_listing(count),
            final(self).answers() == old(self).answers(),
    {
        self.stage = if count == 0 {
            ScanStage::Finished(None)
        } else {
            ScanStage::CheckAt { index: 0, count }
        };
    }

    /// Records whether the session that the stage names matches.
    pub fn record_check(&mut self, matched: bool)
        requires
            old(self).inv(),
            old(self).stage() is CheckAt,
        ensures
            final(self).inv(),
            final(self).answers() == old(self).answers().push(matched),
            old(self).stage() matches ScanStage::CheckAt { index, count } && final(self).stage()
                == after_check_at(index, count, matched),
    {
        let ghost old_answers = self.answers@;
        if let ScanStage::CheckAt { index, count } = self.stage {
            proof {
                self.answers@ = self.answers@.push(matched);
            }
            self.stage = if matched {
                ScanStage::Finished(Some(SessionPick::At(index)))
            } else if index + 1 >= count {
                ScanStage::Finished(None)
            } else {
                ScanStage::CheckAt { index: index + 1, count }
            };
            proof {
                assert forall|j: int| 0 <= j < old_answers.len() implies !#[trigger] self.answers@[j] by {
                    assert(self.answers@[j] == old_answers[j]);
                }
            }
        }
    }
}

/// What a scan finds: a listed session only after the current one and every
/// listed session before it did not match; nothing only when no answer was
/// a match.
pub proof fn lemma_scan_outcome(s: SessionScan)
    requires
        s.inv(),
    ensures
        s.stage() matches ScanStage::Finished(Some(SessionPick::At(i))) ==> {
            &&& s.answers().len() == i + 1
            &&& s.answers()[i as int]
            &&& forall|j: int| 0 <= j < i ==> !s.answers()[j]
        },
        s.stage() matches ScanStage::Finished(None) ==> forall|j: int|
            0 <= j < s.answers().len() ==> !s.answers()[j],
{
}

// ---------------------------------------------------------------------------
// Pausing the session that plays

/// Where a Windows pause stands.
#[derive(Clone, Debug, PartialEq, Eq)]
pub enum PauseStage {
    /// Find the session that plays (with a [`SessionScan`]).
    FindSession,
    /// Read its playback info.
    ReadPlaybackInfo,
    /// Ask its controls whether pausing is enabled.
    CheckPauseEnabled,
    /// Ask it to pause.
    RequestPause,
    /// Read its source app id, which identifies it for the resume.
    ReadSourceId,
    /// Done: the source app id of the paused session, or none when nothing
    /// was paused.
    Finished(Option<String>),
}

/// What the caller reports after doing what a [`PauseStage`] asked.
pub enum PauseEvent {
    SessionFound(bool),
    PlaybackInfo(bool),
    PauseEnabled(bool),
    PauseAccepted(bool),
    SourceId(Option<String>),
}

/// Whether `event` answers `stage`.
pub open spec fn pause_event_fits(stage: PauseStage, event: PauseEvent) -> bool {
    match stage {
        PauseStage::FindSession => event is SessionFound,
        PauseStage::ReadPlaybackInfo => event is PlaybackInfo,
        PauseStage::CheckPauseEnabled => event is PauseEnabled,
        PauseStage::RequestPause => event is PauseAccepted,
        PauseStage::ReadSourceId => event is SourceId,
        PauseStage::Finished(_) => false,
    }
}

/// The stage after `event`: every "no" ends the pause with nothing paused.
pub open spec fn pause_next_spec(stage: PauseStage, event: PauseEvent) -> PauseStage {
    match event {
        PauseEvent::SessionFound(b) => if b {
            PauseStage::ReadPlaybackInfo
        } else {
            PauseStage::Finished(None)
        },
        PauseEvent::PlaybackInfo(b) => if b {
            PauseStage::CheckPauseEnabled
        } else {
            PauseStage::Finished(None)
        },
        PauseEvent::PauseEnabled(b) => if b {
            PauseStage::RequestPause
        } else {
            PauseStage::Finished(None)
        },
        PauseEvent::PauseAccepted(b) => if b {
            PauseStage::ReadSourceId
        } else {
            PauseStage::Finished(None)
        },
        PauseEvent::SourceId(id) => PauseStage::Finished(id),
    }
}

/// Advances a Windows pause by what the caller reports.
pub fn pause_next(stage: PauseStage, event: PauseEvent) -> (next: PauseStage)
    requires
        pause_event_fits(stage, event),
    ensures
        next == pause_next_spec(stage, event),
{
    match event {
        PauseEvent::SessionFound(b) => if b {
            PauseStage::ReadPlaybackInfo
        } else {
            PauseStage::Finished(None)
        },
        PauseEvent::PlaybackInfo(b) => if b {
            PauseStage::CheckPauseEnabled
        } else {
            PauseStage::Finished(None)
        },
        PauseEvent::PauseEnabled(b) => if b {
            PauseStage::RequestPause
        } else {
            PauseStage::Finished(None)
        },
        PauseEvent::PauseAccepted(b) => if b {
            PauseStage::ReadSourceId
        } else {
            PauseStage::Finished(None)
        },
        PauseEvent::SourceId(id) => PauseStage::Finished(id),
    }
}

// ---------------------------------------------------------------------------
// Resuming the session that was paused

/// How a Windows resume ended.
#[derive(Clone, Copy, Debug, PartialEq, Eq)]
pub enum ResumeOutcome {
    /// The paused session no longer exists.
    SessionGone,
    /// The session no longer exposes playback info.
    NoPlaybackInfo,
    /// The session already plays again.
    AlreadyPlaying,
    /// The session no longer supports play.
    PlayNotSupported,
    /// Play was requested; whether the session accepted it.
    PlayRequested(bool),
}

/// Where a Windows resume stands.
#[derive(Clone, Copy, Debug, PartialEq, Eq)]
pub enum ResumeStage {
    /// Find the session by its source app id (with a [`SessionScan`]).
    FindSession,
    /// Read its playback info.
    ReadPlaybackInfo,
    /// Read its playback status and report whether it plays.
    ReadStatus,
    /// Ask its controls whether play is enabled.
    CheckPlayEnabled,
    /// Ask it to play.
    RequestPlay,
    /// Done.
    Finished(ResumeOutcome),
}

/// What the caller reports after doing what a [`ResumeStage`] asked.
#[derive(Clone, Copy, Debug, PartialEq, Eq)]
pub enum ResumeEvent {
    SessionFound(bool),
    PlaybackInfo(bool),
    Playing(bool),
    PlayEnabled(bool),
    PlayAccepted(bool),
}

/// Whether `event` answers `stage`.
pub open spec fn resume_event_fits(stage: ResumeStage, event: ResumeEvent) -> bool {
    match stage {
        ResumeStage::FindSession => event is SessionFound,
        ResumeStage::ReadPlaybackInfo => event is PlaybackInfo,
        ResumeStage::ReadStatus => event is Playing,
        ResumeStage::CheckPlayEnabled => event is PlayEnabled,
        ResumeStage::RequestPlay => event is PlayAccepted,
        ResumeStage::Finished(_) => false,
    }
}

/// The stage after `event`. A resume never fails for a session that went
/// away, already plays or cannot play: it ends with that outcome.
pub open spec fn resume_next_spec(event: ResumeEvent) -> ResumeStage {
    match event {
        ResumeEvent::SessionFound(b) => if b {
            ResumeStage::ReadPlaybackInfo
        } else {
            ResumeStage::Finished(ResumeOutcome::SessionGone)
        },
        ResumeEvent::PlaybackInfo(b) => if b {
            ResumeStage::ReadStatus
        } else {
            ResumeStage::Finished(ResumeOutcome::NoPlaybackInfo)
        },
        ResumeEvent::Playing(b) => if b {
            ResumeStage::Finished(ResumeOutcome::AlreadyPlaying)
        } else {
            ResumeStage::CheckPlayEnabled
        },
        ResumeEvent::PlayEnabled(b) => if b {
            ResumeStage::RequestPlay
        } else {
            ResumeStage::Finished(ResumeOutcome::PlayNotSupported)
        },
        ResumeEvent::PlayAccepted(b) => ResumeStage::Finished(ResumeOutcome::PlayRequested(b)),
    }
}

/// Advances a Windows resume by what the caller reports.
pub fn resume_next(stage: ResumeStage, event: ResumeEvent) -> (next: ResumeStage)
    requires
        resume_event_fits(stage, event),
    ensures
        next == resume_next_spec(event),
{
    match event {
        ResumeEvent::SessionFound(b) => if b {
            ResumeStage::ReadPlaybackInfo
        } else {
            ResumeStage::Finished(ResumeOutcome::SessionGone)
        },
        ResumeEvent::PlaybackInfo(b) => if b {
            ResumeStage::ReadStatus
        } else {
            ResumeStage::Finished(ResumeOutcome::NoPlaybackInfo)
        },
        ResumeEvent::Playing(b) => if b {
            ResumeStage::Finished(ResumeOutcome::AlreadyPlaying)
        } else {
            ResumeStage::CheckPlayEnabled
        },
        ResumeEvent::PlayEnabled(b) => if b {
            ResumeStage::RequestPlay
        } else {
            ResumeStage::Finished(ResumeOutcome::PlayNotSupported)
        },
        ResumeEvent::PlayAccepted(b) => ResumeStage::Finished(ResumeOutcome::PlayRequested(b)),
    }
}

/// A Windows session is asked to play exactly when it reports play as
/// enabled, and is given up as not supporting play exactly when it reports
/// play as disabled.
pub proof fn lemma_windows_play_requested_iff_enabled(event: ResumeEvent)
    ensures
        resume_next_spec(event) == ResumeStage::RequestPlay <==> event == ResumeEvent::PlayEnabled(
            true,
        ),
        resume_next_spec(event) == ResumeStage::Finished(ResumeOutcome::PlayNotSupported)
            <==> event == ResumeEvent::PlayEnabled(false),
        resume_next_spec(event) == ResumeStage::Finished(ResumeOutcome::AlreadyPlaying)
            <==> event == ResumeEvent::Playing(true),
        resume_next_spec(event) == ResumeStage::Finished(ResumeOutcome::SessionGone)
            <==> event == ResumeEvent::SessionFound(false),
        resume_next_spec(event) == ResumeStage::Finished(ResumeOutcome::NoPlaybackInfo)
            <==> event == ResumeEvent::PlaybackInfo(false),
{
}

/// A Windows pause reports a paused session only when the session was found,
/// exposed playback info, had pause enabled and accepted the pause; every
/// "no" along the way ends it with nothing paused.
pub proof fn lemma_windows_pause_stops_at_no(stage: PauseStage, answer: bool)
    ensures
        !answer ==> pause_next_spec(stage, PauseEvent::SessionFound(answer)) == PauseStage::Finished(
            None,
        ),
        !answer ==> pause_next_spec(stage, PauseEvent::PlaybackInfo(answer)) == PauseStage::Finished(
            None,
        ),
        !answer ==> pause_next_spec(stage, PauseEvent::PauseEnabled(answer)) == PauseStage::Finished(
            None,
        ),
        !answer ==> pause_next_spec(stage, PauseEvent::PauseAccepted(answer)) == PauseStage::Finished(
            None,
        ),
        answer ==> pause_next_spec(stage, PauseEvent::PauseEnabled(answer)) == PauseStage::RequestPause,
        answer ==> pause_next_spec(stage, PauseEvent::PauseAccepted(answer)) == PauseStage::ReadSourceId,
{
}

} // verus!
