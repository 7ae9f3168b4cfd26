//! The bookkeeping that decides when media is paused for a recording and
//! when it is resumed.
//!
//! A pause is split in two steps because the platform call that pauses the
//! media runs without the state being held: `start_pause` hands out a
//! generation token, the caller performs the pause, and `finish_pause`
//! records its result. A resume that happens in between bumps the
//! generation, so the late result is recognised as stale and, when it did
//! pause something, handed back to be resumed at once. A token only goes
//! stale when the session it was handed out for has ended, so every stale
//! pause is resumed, however many resumes and sessions came in between.

use vstd::prelude::*;

verus! {

/// What was paused, so that exactly that can be resumed later.
#[derive(Clone, Debug, PartialEq, Eq)]
pub enum PausedPlaybackState {
    /// The global play/pause key was sent.
    Global,
    /// A named media session (an MPRIS service name or a source app id).
    Session(String),
}

/// The abstract value of a [`SessionState`].
pub struct SessionView {
    pub generation: u64,
    pub pause_in_flight: bool,
    pub paused_playback: Option<PausedPlaybackState>,
}

/// Mutable bookkeeping shared by the pause and resume paths.
pub struct SessionState {
    generation: u64,
    pause_in_flight: bool,
    paused_playback: Option<PausedPlaybackState>,
}

impl View for SessionState {
    type V = SessionView;

    closed spec fn view(&self) -> SessionView {
        SessionView {
            generation: self.generation,
            pause_in_flight: self.pause_in_flight,
            paused_playback: self.paused_playback,
        }
    }
}

/// The generation that follows `g`, wrapping around at `u64::MAX`.
pub open spec fn next_generation(g: u64) -> u64 {
    if g == u64::MAX { 0 } else { (g + 1) as u64 }
}

impl SessionView {
    /// A pause in flight never coexists with a recorded paused playback.
    pub open spec fn wf(self) -> bool {
        self.pause_in_flight ==> self.paused_playback is None
    }

    /// Whether a pause request is currently owed a platform call.
    pub open spec fn pause_allowed(self, pause_enabled: bool, recording_active: bool) -> bool {
        &&& pause_enabled
        &&& recording_active
        &&& !self.pause_in_flight
        &&& self.paused_playback is None
    }

    /// The state after `start_pause` when the pause is allowed.
    pub open spec fn started(self) -> SessionView {
        SessionView {
            generation: next_generation(self.generation),
            pause_in_flight: true,
            ..self
        }
    }

    /// The state after `finish_pause` for the token `generation` and `result`.
    pub open spec fn finished(
        self,
        generation: u64,
        result: Result<Option<PausedPlaybackState>, String>,
    ) -> SessionView {
        if self.generation != generation {
            self
        } else {
            SessionView {
                pause_in_flight: false,
                paused_playback: match result {
                    Ok(Some(p)) => Some(p),
                    _ => self.paused_playback,
                },
                ..self
            }
        }
    }

    /// What `finish_pause` hands back to be resumed at once: what a stale
    /// pause paused, since the session it was made for has ended.
    pub open spec fn finished_resume(
        self,
        generation: u64,
        result: Result<Option<PausedPlaybackState>, String>,
    ) -> Option<PausedPlaybackState> {
        if self.generation != generation {
            match result {
                Ok(Some(p)) => Some(p),
                _ => None,
            }
        } else {
            None
        }
    }

    /// The state after `take_for_resume`.
    pub open spec fn resumed(self) -> SessionView {
        SessionView {
            generation: next_generation(self.generation),
            pause_in_flight: false,
            paused_playback: None,
        }
    }
}

impl SessionState {
    /// A fresh state: nothing paused, nothing in flight, generation 0.
    pub fn new() -> (s: SessionState)
        ensures
            s@.generation == 0,
            !s@.pause_in_flight,
            s@.paused_playback is None,
            s@.wf(),
    {
        SessionState { generation: 0, pause_in_flight: false, paused_playback: None }
    }

    /// Begins a pause for the current recording. Returns the generation
    /// token that the caller hands back to `finish_pause` once the platform
    /// pause call has returned, or `None` when no pause is to be attempted:
    /// pausing is disabled, recording is no longer active, or this recording
    /// session already has a pause in flight or a paused playback.
    pub fn start_pause(&mut self, pause_enabled: bool, recording_active: bool) -> (token: Option<u64>)
        ensures
            old(self)@.pause_allowed(pause_enabled, recording_active) ==> {
                &&& final(self)@ == old(self)@.started()
                &&& token == Some(final(self)@.generation)
            },
            !old(self)@.pause_allowed(pause_enabled, recording_active) ==> {
                &&& final(self)@ == old(self)@
                &&& token is None
            },
            old(self)@.wf() ==> final(self)@.wf(),
    {
        if !pause_enabled || !recording_active {
            return None;
        }
        if self.pause_in_flight || self.paused_playback.is_some() {
            return None;
        }
        self.generation = self.generation.wrapping_add(1);
        self.pause_in_flight = true;
        Some(self.generation)
    }

    /// Records the result of the platform pause call started with `token`.
    ///
    /// When the recording session ended meanwhile the result is stale: it is
    /// not recorded, the state is left as it is, and what it paused is
    /// returned so that the caller resumes it at once instead of leaving
    /// media stuck paused.
    pub fn finish_pause(
        &mut self,
        token: u64,
        result: Result<Option<PausedPlaybackState>, String>,
    ) -> (resume_now: Option<PausedPlaybackState>)
        ensures
            final(self)@ == old(self)@.finished(token, result),
            resume_now == old(self)@.finished_resume(token, result),
            old(self)@.wf() && old(self)@.generation == token && old(self)@.pause_in_flight
                ==> final(self)@.wf(),
            old(self)@.wf() && old(self)@.generation != token ==> final(self)@.wf(),
    {
        if self.generation != token {
            if let Ok(Some(paused_playback)) = result {
                return Some(paused_playback);
            }
            return None;
        }
        self.pause_in_flight = false;
        match result {
            Ok(Some(paused_playback)) => {
                self.paused_playback = Some(paused_playback);
            },
            Ok(None) => {},
            Err(_) => {},
        }
        None
    }

    /// Ends the recording session: bumps the generation, so that a pause still
    /// in flight goes stale and is resumed when its result comes in, and takes
    /// out what was paused, which the caller then resumes.
    pub fn take_for_resume(&mut self) -> (paused: Option<PausedPlaybackState>)
        ensures
            final(self)@ == old(self)@.resumed(),
            paused == old(self)@.paused_playback,
            final(self)@.wf(),
    {
        self.generation = self.generation.wrapping_add(1);
        self.pause_in_flight = false;
        self.paused_playback.take()
    }
}

/// A recording session pauses at most once: while its pause is in flight,
/// and after it paused something, a further pause request is not owed a
/// platform call.
pub proof fn lemma_one_pause_per_session(
    s: SessionView,
    pause_enabled: bool,
    recording_active: bool,
    paused: PausedPlaybackState,
    again_enabled: bool,
    again_active: bool,
)
    requires
        s.wf(),
        s.pause_allowed(pause_enabled, recording_active),
    ensures
        !s.started().pause_allowed(again_enabled, again_active),
        !s.started().finished(s.started().generation, Ok(Some(paused))).pause_allowed(
            again_enabled,
            again_active,
        ),
        s.started().finished(s.started().generation, Ok(Some(paused))).paused_playback
            == Some(paused),
        s.started().finished(s.started().generation, Ok(Some(paused))).wf(),
{
}

/// Ending a session hands out what was paused once: the state afterwards
/// holds no paused playback, so ending it again resumes nothing, whatever
/// the resume call returned.
pub proof fn lemma_resume_hands_out_once(s: SessionView)
    ensures
        s.resumed().paused_playback is None,
        s.resumed().resumed().paused_playback is None,
        !s.resumed().pause_in_flight,
        s.resumed().wf(),
{
}

/// No paused media is lost: whatever the state and the token, a pause
/// result that paused something is either recorded, to be resumed when the
/// session ends, or handed back to be resumed at once.
pub proof fn lemma_no_pause_is_lost(s: SessionView, token: u64, paused: PausedPlaybackState)
    ensures
        s.finished(token, Ok(Some(paused))).paused_playback == Some(paused) || s.finished_resume(
            token,
            Ok(Some(paused)),
        ) == Some(paused),
        s.generation != token ==> s.finished_resume(token, Ok(Some(paused))) == Some(paused),
{
}

/// A session that ends while its pause is still in flight does not leave
/// media paused, however many resumes follow (a stop and then a cancel):
/// the late result is handed back to be resumed, and nothing stays recorded
/// as paused.
pub proof fn lemma_stale_pause_is_resumed(
    s: SessionView,
    pause_enabled: bool,
    recording_active: bool,
    paused: PausedPlaybackState,
)
    requires
        s.wf(),
        s.pause_allowed(pause_enabled, recording_active),
    ensures
        ({
            let token = s.started().generation;
            let once = s.started().resumed();
            let twice = once.resumed();
            &&& once.generation != token
            &&& once.finished_resume(token, Ok(Some(paused))) == Some(paused)
            &&& once.finished(token, Ok(Some(paused))).paused_playback is None
            &&& once.finished(token, Ok(Some(paused))).wf()
            &&& twice.generation != token
            &&& twice.finished_resume(token, Ok(Some(paused))) == Some(paused)
            &&& twice.finished(token, Ok(Some(paused))).paused_playback is None
        }),
{
}

/// Two overlapping recording sessions, each ended while its pause is in
/// flight: both late results are handed back to be resumed, in whichever
/// order they come in, and nothing stays recorded as paused.
pub proof fn lemma_overlapping_stale_pauses_are_resumed(
    s: SessionView,
    first: PausedPlaybackState,
    second: PausedPlaybackState,
)
    requires
        s.wf(),
        s.pause_allowed(true, true),
    ensures
        ({
            let t1 = s.started().generation;
            let s2 = s.started().resumed();
            let t2 = s2.started().generation;
            let s4 = s2.started().resumed();
            &&& s2.pause_allowed(true, true)
            &&& t1 != t2
            &&& s4.finished_resume(t1, Ok(Some(first))) == Some(first)
            &&& s4.finished(t1, Ok(Some(first))).finished_resume(t2, Ok(Some(second))) == Some(
                second,
            )
            &&& s4.finished_resume(t2, Ok(Some(second))) == Some(second)
            &&& s4.finished(t2, Ok(Some(second))).finished_resume(t1, Ok(Some(first))) == Some(
                first,
            )
            &&& s4.finished(t1, Ok(Some(first))).finished(t2, Ok(Some(second))).paused_playback
                is None
            &&& s4.finished(t2, Ok(Some(second))).finished(t1, Ok(Some(first))).paused_playback
                is None
        }),
{
}

/// A late pause result never disturbs a newer session: when the token is
/// stale, the generation, the pause in flight and the paused playback stay
/// as they are.
pub proof fn lemma_stale_result_keeps_newer_session(
    s: SessionView,
    token: u64,
    result: Result<Option<PausedPlaybackState>, String>,
)
    requires
        s.generation != token,
    ensures
        s.finished(token, result).generation == s.generation,
        s.finished(token, result).pause_in_flight == s.pause_in_flight,
        s.finished(token, result).paused_playback == s.paused_playback,
{
}

/// A pause whose result comes back for the current session always ends the
/// pause in flight, whatever the result; when it paused nothing (nothing
/// played, or the call failed) the session may pause again: a further
/// request is owed a platform call.
pub proof fn lemma_settled_pause_ends_flight(
    s: SessionView,
    token: u64,
    result: Result<Option<PausedPlaybackState>, String>,
)
    requires
        s.wf(),
        s.pause_in_flight,
        s.generation == token,
    ensures
        !s.finished(token, result).pause_in_flight,
        s.finished(token, result).wf(),
        s.finished(token, result).generation == s.generation,
        !(result is Ok && result->Ok_0 is Some) ==> s.finished(token, result).pause_allowed(
            true,
            true,
        ),
        result matches Ok(Some(p)) ==> s.finished(token, result).paused_playback == Some(p),
        s.finished_resume(token, result) is None,
{
}

/// A failed pause or one that found nothing playing is retried within the
/// same recording: after a fresh state starts a pause and finishes it so,
/// the next pause request gets a new token.
pub proof fn lemma_unsuccessful_pause_is_retried(
    s: SessionView,
    result: Result<Option<PausedPlaybackState>, String>,
)
    requires
        s.wf(),
        s.pause_allowed(true, true),
        result is Err || result == Ok::<Option<PausedPlaybackState>, String>(None),
    ensures
        ({
            let after = s.started().finished(s.started().generation, result);
            &&& after.pause_allowed(true, true)
            &&& after.started().generation != s.started().generation
        }),
{
}

} // verus!
