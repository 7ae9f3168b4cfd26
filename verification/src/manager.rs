//! Pauses the media that plays when a recording starts and resumes it when
//! the recording ends, through a pluggable backend.

use vstd::prelude::*;
use crate::session::{PausedPlaybackState, SessionState, SessionView};

verus! {

/// One call made into a backend, with what came back.
#[derive(Debug, PartialEq, Eq)]
pub enum BackendCall {
    Pause(Result<Option<PausedPlaybackState>, String>),
    Resume(PausedPlaybackState, Result<(), String>),
}

/// The media side: pauses whatever plays and resumes what was paused.
///
/// Nothing is promised of what a backend returns. What an implementation
/// owes is that its history records each call made on it, with its argument
/// and its result, and nothing else; [`ScriptedBackend`] is one, proved so.
pub trait MediaControlBackend {
    /// The calls made on this backend so far, oldest first.
    spec fn history(&self) -> Seq<BackendCall>;

    /// Pauses the active playback. `Ok(None)` means nothing was playing.
    fn pause_playback(&mut self) -> (r: Result<Option<PausedPlaybackState>, String>)
        ensures
            final(self).history() == old(self).history().push(BackendCall::Pause(r)),
    ;

    /// Resumes a playback that `pause_playback` paused.
    fn resume_playback(&mut self, paused_playback: PausedPlaybackState) -> (r: Result<(), String>)
        ensures
            final(self).history() == old(self).history().push(
                BackendCall::Resume(paused_playback, r),
            ),
    ;
}

/// Pauses media for a recording session and resumes it afterwards.
pub struct MediaControlManager<B: MediaControlBackend> {
    state: SessionState,
    backend: B,
}

impl<B: MediaControlBackend> MediaControlManager<B> {
    /// The session bookkeeping.
    pub closed spec fn session(&self) -> SessionView {
        self.state@
    }

    /// The backend the manager calls.
    pub closed spec fn backend(&self) -> B {
        self.backend
    }

    /// Every call made on the backend so far, oldest first.
    pub open spec fn calls(&self) -> Seq<BackendCall> {
        self.backend().history()
    }

    /// The backend the manager calls.
    pub fn get_backend(&self) -> (b: &B)
        ensures
            *b == self.backend(),
    {
        &self.backend
    }

    /// A manager over `backend`, with nothing paused and no call made yet.
    pub fn with_backend(backend: B) -> (m: Self)
        ensures
            m.backend() == backend,
            m.session().generation == 0,
            !m.session().pause_in_flight,
            m.session().paused_playback is None,
            m.session().wf(),
    {
        MediaControlManager { state: SessionState::new(), backend }
    }

    /// Pauses the active playback for the recording session, unless pausing
    /// is disabled, the recording is no longer active, or this session already
    /// paused (or is pausing) something. A playback that the backend paused is
    /// remembered so that `resume_after_recording` resumes it; when nothing
    /// played or the backend failed, nothing is remembered.
    pub fn pause_for_recording_inner(&mut self, pause_enabled: bool, recording_active: bool)
        requires
            old(self).session().wf(),
        ensures
            final(self).session().wf(),
            !old(self).session().pause_allowed(pause_enabled, recording_active) ==> {
                &&& final(self).session() == old(self).session()
                &&& final(self).calls() == old(self).calls()
            },
            old(self).session().pause_allowed(pause_enabled, recording_active) ==> {
                &&& final(self).calls().len() == old(self).calls().len() + 1
                &&& final(self).calls().drop_last() == old(self).calls()
                &&& final(self).calls().last() matches BackendCall::Pause(result)
                    && final(self).session() == old(self).session().started().finished(
                        old(self).session().started().generation,
                        result,
                    )
            },
    {
        let token = self.state.start_pause(pause_enabled, recording_active);
        match token {
            None => {},
            Some(token) => {
                let result = self.backend.pause_playback();
                let resume_now = self.state.finish_pause(token, result);
                proof {
                    assert(resume_now is None);
                    assert(self.backend.history().drop_last() =~= old(self).backend.history());
                }
            },
        }
    }

    /// Ends the recording session and resumes what it paused, if anything.
    /// What was paused is forgotten whether or not the resume succeeds, so a
    /// second call resumes nothing.
    pub fn resume_after_recording_inner(&mut self)
        requires
            old(self).session().wf(),
        ensures
            final(self).session() == old(self).session().resumed(),
            final(self).session().wf(),
            old(self).session().paused_playback is None ==> final(self).calls() == old(
                self,
            ).calls(),
            old(self).session().paused_playback matches Some(p) ==> {
                &&& final(self).calls().len() == old(self).calls().len() + 1
                &&& final(self).calls().drop_last() == old(self).calls()
                &&& final(self).calls().last() matches BackendCall::Resume(q, _) && q == p
            },
    {
        let paused = self.state.take_for_resume();
        match paused {
            None => {},
            Some(paused_playback) => {
                let result = self.backend.resume_playback(paused_playback);
                proof {
                    assert(self.backend.history().drop_last() =~= old(self).backend.history());
                }
            },
        }
    }

    /// Pauses media for the recording that is starting. `is_recording` is the
    /// audio manager's state, `None` when no audio manager is there to ask,
    /// which counts as recording; `pause_while_recording` is the setting.
    pub fn pause_for_recording(&mut self, pause_while_recording: bool, is_recording: Option<bool>)
        requires
            old(self).session().wf(),
        ensures
            ({
                let active = match is_recording {
                    Some(r) => r,
                    None => true,
                };
                &&& final(self).session().wf()
                &&& !old(self).session().pause_allowed(pause_while_recording, active) ==> {
                    &&& final(self).session() == old(self).session()
                    &&& final(self).calls() == old(self).calls()
                }
                &&& old(self).session().pause_allowed(pause_while_recording, active) ==> {
                    &&& final(self).calls().len() == old(self).calls().len() + 1
                    &&& final(self).calls().drop_last() == old(self).calls()
                    &&& final(self).calls().last() matches BackendCall::Pause(result)
                        && final(self).session() == old(self).session().started().finished(
                        old(self).session().started().generation,
                        result,
                    )
                }
            }),
    {
        let recording_active = match is_recording {
            Some(r) => r,
            None => true,
        };
        self.pause_for_recording_inner(pause_while_recording, recording_active);
    }

    /// Ends the recording session; see `resume_after_recording_inner`.
    pub fn resume_after_recording(&mut self)
        requires
            old(self).session().wf(),
        ensures
            final(self).session() == old(self).session().resumed(),
            final(self).session().wf(),
            old(self).session().paused_playback is None ==> final(self).calls() == old(
                self,
            ).calls(),
            old(self).session().paused_playback matches Some(p) ==> {
                &&& final(self).calls().len() == old(self).calls().len() + 1
                &&& final(self).calls().drop_last() == old(self).calls()
                &&& final(self).calls().last() matches BackendCall::Resume(q, _) && q == p
            },
    {
        self.resume_after_recording_inner();
    }
}

impl<B: MediaControlBackend + Default> MediaControlManager<B> {
    /// A manager over the default backend, with nothing paused.
    pub fn new() -> (m: Self)
        ensures
            m.session().generation == 0,
            !m.session().pause_in_flight,
            m.session().paused_playback is None,
            m.session().wf(),
    {
        Self::with_backend(B::default())
    }
}

/// The same playback, rebuilt field by field.
fn copy_playback(p: &PausedPlaybackState) -> (q: PausedPlaybackState)
    ensures
        q == *p,
{
    match p {
        PausedPlaybackState::Global => PausedPlaybackState::Global,
        PausedPlaybackState::Session(name) => PausedPlaybackState::Session(name.clone()),
    }
}

/// A backend without a platform: it answers every pause and every resume
/// with a preset result, pauses and resumes nothing, and keeps the calls made
/// on it. It drives a manager in tests and dry runs.
pub struct ScriptedBackend {
    pause_result: Result<Option<PausedPlaybackState>, String>,
    resume_result: Result<(), String>,
    log: Vec<BackendCall>,
}

impl Default for ScriptedBackend {
    /// A backend that finds nothing playing and resumes without error.
    fn default() -> (b: ScriptedBackend)
        ensures
            b.history() == Seq::<BackendCall>::empty(),
            b.pause_answer() == Ok::<Option<PausedPlaybackState>, String>(None),
            b.resume_answer() == Ok::<(), String>(()),
    {
        ScriptedBackend::new(Ok(None), Ok(()))
    }
}

impl ScriptedBackend {
    /// The preset answer to a pause.
    pub closed spec fn pause_answer(&self) -> Result<Option<PausedPlaybackState>, String> {
        self.pause_result
    }

    /// The preset answer to a resume.
    pub closed spec fn resume_answer(&self) -> Result<(), String> {
        self.resume_result
    }

    /// A backend that answers pauses with `pause_result` and resumes with
    /// `resume_result`, with no call made yet.
    pub fn new(
        pause_result: Result<Option<PausedPlaybackState>, String>,
        resume_result: Result<(), String>,
    ) -> (b: ScriptedBackend)
        ensures
            b.history() == Seq::<BackendCall>::empty(),
            b.pause_answer() == pause_result,
            b.resume_answer() == resume_result,
    {
        ScriptedBackend { pause_result, resume_result, log: Vec::new() }
    }

    /// The calls made on this backend, oldest first.
    pub fn calls(&self) -> (c: &Vec<BackendCall>)
        ensures
            c@ == self.history(),
    {
        &self.log
    }
}

impl MediaControlBackend for ScriptedBackend {
    closed spec fn history(&self) -> Seq<BackendCall> {
        self.log@
    }

    fn pause_playback(&mut self) -> (r: Result<Option<PausedPlaybackState>, String>) {
        let answer = match &self.pause_result {
            Ok(Some(p)) => Ok(Some(copy_playback(p))),
            Ok(None) => Ok(None),
            Err(e) => Err(e.clone()),
        };
        let recorded = match &answer {
            Ok(Some(p)) => Ok(Some(copy_playback(p))),
            Ok(None) => Ok(None),
            Err(e) => Err(e.clone()),
        };
        self.log.push(BackendCall::Pause(recorded));
        answer
    }

    fn resume_playback(&mut self, paused_playback: PausedPlaybackState) -> (r: Result<(), String>) {
        let answer = match &self.resume_result {
            Ok(()) => Ok(()),
            Err(e) => Err(e.clone()),
        };
        let recorded = match &answer {
            Ok(()) => Ok(()),
            Err(e) => Err(e.clone()),
        };
        self.log.push(BackendCall::Resume(paused_playback, recorded));
        answer
    }
}

} // verus!
