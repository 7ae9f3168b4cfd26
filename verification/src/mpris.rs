//! Decisions of the Linux media control over MPRIS: which D-Bus services are
//! media players, in which order they are asked whether they play, which
//! one is paused, and which D-Bus errors mean that a player went away.
//!
//! The D-Bus calls themselves are made by the caller: it asks a
//! [`TargetSearch`] for the next service to probe, probes it, and records
//! the answer until the search has finished.

use vstd::prelude::*;
use crate::text::{chars_of, contains, starts_with, str_contains, str_eq, str_starts_with};

verus! {

broadcast use vstd::string::group_string_axioms;

/// The playerctld proxy, which forwards to the most recently active player.
pub const PLAYERCTLD_SERVICE: &'static str = "org.mpris.MediaPlayer2.playerctld";

/// The prefix of every MPRIS player's bus name.
pub const MPRIS_PREFIX: &'static str = "org.mpris.MediaPlayer2.";

/// The object path of an MPRIS player.
pub const MPRIS_OBJECT_PATH: &'static str = "/org/mpris/MediaPlayer2";

/// The D-Bus interface that controls playback.
pub const MPRIS_PLAYER_INTERFACE: &'static str = "org.mpris.MediaPlayer2.Player";

/// Whether a D-Bus error text says that the player is gone or does not
/// offer the player interface.
pub open spec fn service_missing(err: Seq<char>) -> bool {
    ||| contains(err, "org.freedesktop.DBus.Error.ServiceUnknown"@)
    ||| contains(err, "org.freedesktop.DBus.Error.NameHasNoOwner"@)
    ||| contains(err, "UnknownMethod"@)
    ||| contains(err, "UnknownObject"@)
}

/// Tells whether a D-Bus error means that the player went away.
pub fn service_missing_error(err: &str) -> (r: bool)
    ensures
        r == service_missing(err@),
{
    str_contains(err, "org.freedesktop.DBus.Error.ServiceUnknown") || str_contains(
        err,
        "org.freedesktop.DBus.Error.NameHasNoOwner",
    ) || str_contains(err, "UnknownMethod") || str_contains(err, "UnknownObject")
}

/// Whether an MPRIS `PlaybackStatus` says that the player plays.
pub fn is_playing_status(status: &str) -> (r: bool)
    ensures
        r == (status@ == "Playing"@),
{
    str_eq(status, "Playing")
}

/// Whether an MPRIS `PlaybackStatus` says that the player is paused.
pub fn is_paused_status(status: &str) -> (r: bool)
    ensures
        r == (status@ == "Paused"@),
{
    str_eq(status, "Paused")
}

// ---------------------------------------------------------------------------
// Order of bus names

/// Lexicographic order of texts by code point: the order in which the
/// candidate players are probed. (`String`'s own order compares UTF-8 bytes,
/// which by the design of UTF-8 sorts the same way; that agreement is not
/// proved here.)
pub open spec fn lex_lt(a: Seq<char>, b: Seq<char>) -> bool
    decreases a.len(),
{
    if a.len() == 0 {
        b.len() > 0
    } else if b.len() == 0 {
        false
    } else if a[0] != b[0] {
        (a[0] as u32) < (b[0] as u32)
    } else {
        lex_lt(a.drop_first(), b.drop_first())
    }
}

/// Whether `s` is in ascending order.
pub open spec fn sorted(s: Seq<Seq<char>>) -> bool {
    forall|i: int, j: int| 0 <= i < j < s.len() ==> !lex_lt(#[trigger] s[j], #[trigger] s[i])
}

proof fn lemma_lex_lt_asym(a: Seq<char>, b: Seq<char>)
    ensures
        !(lex_lt(a, b) && lex_lt(b, a)),
    decreases a.len(),
{
    if a.len() > 0 && b.len() > 0 && a[0] == b[0] {
        lemma_lex_lt_asym(a.drop_first(), b.drop_first());
    }
}

proof fn lemma_lex_lt_trans(a: Seq<char>, b: Seq<char>, c: Seq<char>)
    requires
        lex_lt(a, b),
        lex_lt(b, c),
    ensures
        lex_lt(a, c),
    decreases a.len(),
{
    if a.len() > 0 && b.len() > 0 && c.len() > 0 && a[0] == b[0] && b[0] == c[0] {
        lemma_lex_lt_trans(a.drop_first(), b.drop_first(), c.drop_first());
    }
}

fn lex_less(a: &Vec<char>, b: &Vec<char>) -> (r: bool)
    ensures
        r == lex_lt(a@, b@),
{
    let mut i: usize = 0;
    assert(a@.skip(0) =~= a@);
    assert(b@.skip(0) =~= b@);
    while i < a.len() && i < b.len() && a[i] == b[i]
        invariant
            i <= a@.len(),
            i <= b@.len(),
            lex_lt(a@, b@) == lex_lt(a@.skip(i as int), b@.skip(i as int)),
        decreases a@.len() - i,
    {
        assert(a@.skip(i as int).drop_first() =~= a@.skip(i + 1));
        assert(b@.skip(i as int).drop_first() =~= b@.skip(i + 1));
        i = i + 1;
    }
    if i == a.len() {
        i < b.len()
    } else if i == b.len() {
        false
    } else {
        (a[i] as u32) < (b[i] as u32)
    }
}

/// Whether a bus name is an MPRIS player other than playerctld.
pub open spec fn is_candidate(name: Seq<char>) -> bool {
    starts_with(name, MPRIS_PREFIX@) && name != PLAYERCTLD_SERVICE@
}

/// The candidate players among `names`, in their order.
pub open spec fn candidates_of(names: Seq<Seq<char>>) -> Seq<Seq<char>>
    decreases names.len(),
{
    if names.len() == 0 {
        Seq::empty()
    } else if is_candidate(names.last()) {
        candidates_of(names.drop_last()).push(names.last())
    } else {
        candidates_of(names.drop_last())
    }
}

/// The views of a sequence of strings.
pub open spec fn views_of(s: Seq<String>) -> Seq<Seq<char>> {
    s.map_values(|x: String| x@)
}

/// The candidate players among `names`, sorted, as they are probed.
pub fn mpris_candidates(names: &Vec<String>) -> (c: Vec<String>)
    ensures
        sorted(views_of(c@)),
        views_of(c@).to_multiset() == candidates_of(views_of(names@)).to_multiset(),
        c@.len() <= names@.len(),
{
    broadcast use vstd::seq_lib::group_to_multiset_ensures;

    let ghost nv = views_of(names@);
    let mut out: Vec<String> = Vec::new();
    assert(nv.take(0) =~= Seq::<Seq<char>>::empty());
    assert(views_of(out@) =~= Seq::<Seq<char>>::empty());
    for i in 0..names.len()
        invariant
            nv == views_of(names@),
            sorted(views_of(out@)),
            out@.len() <= i,
            views_of(out@).to_multiset() == candidates_of(nv.take(i as int)).to_multiset(),
    {
        let name = &names[i];
        assert(nv.take(i + 1).drop_last() =~= nv.take(i as int));
        assert(nv.take(i + 1).last() == name@);
        let keep = str_starts_with(name.as_str(), MPRIS_PREFIX) && !str_eq(
            name.as_str(),
            PLAYERCTLD_SERVICE,
        );
        if keep {
            let key = chars_of(name.as_str());
            let mut p: usize = 0;
            while p < out.len() && !lex_less(&key, &chars_of(out[p].as_str()))
                invariant
                    p <= out@.len(),
                    key@ == name@,
                    forall|k: int| 0 <= k < p ==> !lex_lt(name@, #[trigger] out@[k]@),
                decreases out@.len() - p,
            {
                p = p + 1;
            }
            let ghost before = views_of(out@);
            out.insert(p, name.clone());
            proof {
                let after = views_of(out@);
                assert(after =~= before.insert(p as int, name@));
                assert(before.insert(p as int, name@).to_multiset() == before.to_multiset().insert(
                    name@,
                )) by {
                    vstd::seq_lib::to_multiset_insert(before, p as int, name@);
                }
                assert(candidates_of(nv.take(i + 1)) == candidates_of(nv.take(i as int)).push(
                    name@,
                ));
                vstd::seq_lib::to_multiset_build(candidates_of(nv.take(i as int)), name@);
                assert forall|a: int, b: int| 0 <= a < b < after.len() implies !lex_lt(
                    #[trigger] after[b],
                    #[trigger] after[a],
                ) by {
                    if b < p {
                    } else if a < p && b == p {
                    } else if a < p && b > p {
                        assert(after[b] == before[b - 1]);
                        if lex_lt(after[b], after[a]) {
                            if p < before.len() {
                                assert(lex_lt(name@, before[p as int]));
                            }
                        }
                        assert(!lex_lt(before[b - 1], before[a]));
                    } else if a == p {
                        assert(after[b] == before[b - 1]);
                        assert(lex_lt(name@, before[p as int]));
                        if lex_lt(before[b - 1], name@) {
                            if b - 1 == p {
                                lemma_lex_lt_asym(name@, before[p as int]);
                            } else {
                                lemma_lex_lt_trans(before[b - 1], name@, before[p as int]);
                            }
                        }
                    } else {
                        assert(after[a] == before[a - 1]);
                        assert(after[b] == before[b - 1]);
                    }
                }
            }
        } else {
            assert(candidates_of(nv.take(i + 1)) == candidates_of(nv.take(i as int)));
        }
    }
    assert(nv.take(names@.len() as int) =~= nv);
    out
}

// ---------------------------------------------------------------------------
// Which player to pause

/// What the caller does next in a [`TargetSearch`].
pub enum SearchStep {
    /// Ask this service whether it plays, then record the answer.
    Probe(String),
    /// The search is over: the service to pause, or none.
    Finished(Option<String>),
}

/// The abstract value of a [`SearchStep`].
pub enum SearchStepView {
    Probe(Seq<char>),
    Finished(Option<Seq<char>>),
}

impl View for SearchStep {
    type V = SearchStepView;

    open spec fn view(&self) -> SearchStepView {
        match self {
            SearchStep::Probe(s) => SearchStepView::Probe(s@),
            SearchStep::Finished(Some(s)) => SearchStepView::Finished(Some(s@)),
            SearchStep::Finished(None) => SearchStepView::Finished(None),
        }
    }
}

/// The abstract value of a [`TargetSearch`].
pub struct TargetSearchView {
    /// The candidate players, sorted.
    pub candidates: Seq<Seq<char>>,
    /// Whether playerctld is on the bus.
    pub playerctld_listed: bool,
    /// The answers recorded so far, in the order of the probes.
    pub answers: Seq<bool>,
}

impl TargetSearchView {
    /// The service asked in probe `i`: the candidates in order, then
    /// playerctld.
    pub open spec fn probed(self, i: int) -> Seq<char> {
        if i < self.candidates.len() {
            self.candidates[i]
        } else {
            PLAYERCTLD_SERVICE@
        }
    }

    /// The next step. A concrete player that plays is preferred, so that the
    /// same player is resumed later; playerctld is asked only when it is on
    /// the bus and no candidate plays.
    pub open spec fn step(self) -> SearchStepView {
        let k = self.answers.len();
        if k > 0 && self.answers.last() {
            SearchStepView::Finished(Some(self.probed(k - 1)))
        } else if k < self.candidates.len() {
            SearchStepView::Probe(self.candidates[k as int])
        } else if k == self.candidates.len() && self.playerctld_listed {
            SearchStepView::Probe(PLAYERCTLD_SERVICE@)
        } else {
            SearchStepView::Finished(None)
        }
    }

    /// The answers come from following the steps: no answer is recorded
    /// after one that said "plays", and no more than there are services.
    pub open spec fn wf(self) -> bool {
        &&& forall|i: int| 0 <= i < self.answers.len() - 1 ==> !#[trigger] self.answers[i]
        &&& self.answers.len() <= self.candidates.len() + if self.playerctld_listed {
            1int
        } else {
            0int
        }
    }
}

/// Finds the MPRIS player to pause among the bus names, one probe at a time.
pub struct TargetSearch {
    candidates: Vec<String>,
    playerctld_listed: bool,
    asked: usize,
    hit: bool,
    answers: Ghost<Seq<bool>>,
}

impl View for TargetSearch {
    type V = TargetSearchView;

    closed spec fn view(&self) -> TargetSearchView {
        TargetSearchView {
            candidates: views_of(self.candidates@),
            playerctld_listed: self.playerctld_listed,
            answers: self.answers@,
        }
    }
}

impl TargetSearch {
    /// The representation matches the view.
    pub closed spec fn inv(&self) -> bool {
        &&& self.asked == self.answers@.len()
        &&& self.candidates@.len() < usize::MAX
        &&& self.hit == (self.answers@.len() > 0 && self.answers@.last())
        &&& self@.wf()
    }

    /// Starts a search over the bus names `names`.
    pub fn new(names: &Vec<String>) -> (s: TargetSearch)
        requires
            names@.len() < usize::MAX,
        ensures
            s.inv(),
            sorted(s@.candidates),
            s@.candidates.to_multiset() == candidates_of(views_of(names@)).to_multiset(),
            s@.playerctld_listed == views_of(names@).contains(PLAYERCTLD_SERVICE@),
            s@.answers == Seq::<bool>::empty(),
    {
        let candidates = mpris_candidates(names);
        let mut listed = false;
        for i in 0..names.len()
            invariant
                listed == views_of(names@).take(i as int).contains(PLAYERCTLD_SERVICE@),
        {
            assert(views_of(names@).take(i + 1) =~= views_of(names@).take(i as int).push(
                names@[i as int]@,
            ));
            let ghost pre = views_of(names@).take(i as int);
            let ghost post = views_of(names@).take(i + 1);
            if str_eq(names[i].as_str(), PLAYERCTLD_SERVICE) {
                listed = true;
                assert(post[i as int] == PLAYERCTLD_SERVICE@);
            }
            proof {
                if post.contains(PLAYERCTLD_SERVICE@) {
                    let j = choose|j: int| 0 <= j < post.len() && post[j] == PLAYERCTLD_SERVICE@;
                    if j < i {
                        assert(pre[j] == PLAYERCTLD_SERVICE@);
                    }
                }
                if pre.contains(PLAYERCTLD_SERVICE@) {
                    let j = choose|j: int| 0 <= j < pre.len() && pre[j] == PLAYERCTLD_SERVICE@;
                    assert(post[j] == PLAYERCTLD_SERVICE@);
                }
            }
        }
        assert(views_of(names@).take(names@.len() as int) =~= views_of(names@));
        TargetSearch {
            candidates,
            playerctld_listed: listed,
            asked: 0,
            hit: false,
            answers: Ghost(Seq::empty()),
        }
    }

    /// The next step of the search.
    pub fn next_step(&self) -> (step: SearchStep)
        requires
            self.inv(),
        ensures
            step@ == self@.step(),
    {
        let n = self.candidates.len();
        if self.hit {
            if self.asked - 1 < n {
                SearchStep::Finished(Some(self.candidates[self.asked - 1].clone()))
            } else {
                SearchStep::Finished(Some(String::from_str(PLAYERCTLD_SERVICE)))
            }
        } else if self.asked < n {
            SearchStep::Probe(self.candidates[self.asked].clone())
        } else if self.asked == n && self.playerctld_listed {
            SearchStep::Probe(String::from_str(PLAYERCTLD_SERVICE))
        } else {
            SearchStep::Finished(None)
        }
    }

    /// Records whether the service that the last step asked about plays.
    pub fn record(&mut self, playing: bool)
        requires
            old(self).inv(),
            old(self)@.step() is Probe,
        ensures
            final(self).inv(),
            final(self)@.candidates == old(self)@.candidates,
            final(self)@.playerctld_listed == old(self)@.playerctld_listed,
            final(self)@.answers == old(self)@.answers.push(playing),
    {
        proof {
            self.answers@ = self.answers@.push(playing);
        }
        self.asked = self.asked + 1;
        self.hit = playing;
    }
}

/// What the search finds: the first service in probe order that plays, and
/// only after every service before it said it does not; none only when every
/// candidate, and playerctld when it is on the bus, said it does not play.
pub proof fn lemma_search_outcome(v: TargetSearchView)
    requires
        v.wf(),
    ensures
        v.step() matches SearchStepView::Finished(Some(t)) ==> {
            let k = v.answers.len();
            &&& k > 0
            &&& v.answers[k - 1]
            &&& t == v.probed(k - 1)
            &&& forall|i: int| 0 <= i < k - 1 ==> !v.answers[i]
        },
        v.step() matches SearchStepView::Finished(None) ==> {
            &&& v.answers.len() == v.candidates.len() + if v.playerctld_listed {
                1int
            } else {
                0int
            }
            &&& forall|i: int| 0 <= i < v.answers.len() ==> !v.answers[i]
        },
        v.step() is Probe ==> v.answers.push(false).len() <= v.candidates.len() + if v.playerctld_listed {
            1int
        } else {
            0int
        },
{
}

// ---------------------------------------------------------------------------
// Pausing and resuming one player

/// Where a Linux pause stands.
#[derive(Clone, Debug, PartialEq, Eq)]
pub enum PauseStage {
    /// Find the player to pause (with a [`TargetSearch`]).
    FindTarget,
    /// Open the player interface of this service.
    OpenPlayer(String),
    /// Read this service's `PlaybackStatus`.
    ReadStatus(String),
    /// Call `Pause` on this service.
    RequestPause(String),
    /// Done: the service that was paused, or none.
    Finished(Option<String>),
}

/// What the caller reports after doing what a [`PauseStage`] asked.
pub enum PauseEvent {
    /// The player chosen, or none.
    TargetFound(Option<String>),
    /// Whether the player interface could be opened; `false` when the
    /// service went away.
    PlayerOpened(bool),
    /// The playback status read.
    Status(String),
    /// `Pause` was called.
    PauseCalled,
}

/// Whether `event` answers `stage`.
pub open spec fn pause_event_fits(stage: PauseStage, event: PauseEvent) -> bool {
    match stage {
        PauseStage::FindTarget => event is TargetFound,
        PauseStage::OpenPlayer(_) => event is PlayerOpened,
        PauseStage::ReadStatus(_) => event is Status,
        PauseStage::RequestPause(_) => event is PauseCalled,
        PauseStage::Finished(_) => false,
    }
}

/// The stage after `event`: only a player that is there and plays is
/// paused, and the service paused is what the pause reports.
pub open spec fn pause_next_spec(stage: PauseStage, event: PauseEvent) -> PauseStage {
    match (stage, event) {
        (_, PauseEvent::TargetFound(None)) => PauseStage::Finished(None),
        (_, PauseEvent::TargetFound(Some(name))) => PauseStage::OpenPlayer(name),
        (PauseStage::OpenPlayer(name), PauseEvent::PlayerOpened(true)) => PauseStage::ReadStatus(
            name,
        ),
        (PauseStage::ReadStatus(name), PauseEvent::Status(status)) => if status@ == "Playing"@ {
            PauseStage::RequestPause(name)
        } else {
            PauseStage::Finished(None)
        },
        (PauseStage::RequestPause(name), PauseEvent::PauseCalled) => PauseStage::Finished(
            Some(name),
        ),
        _ => PauseStage::Finished(None),
    }
}

/// Advances a Linux pause by what the caller reports.
pub fn pause_next(stage: PauseStage, event: PauseEvent) -> (next: PauseStage)
    requires
        pause_event_fits(stage, event),
    ensures
        next == pause_next_spec(stage, event),
{
    match (stage, event) {
        (_, PauseEvent::TargetFound(None)) => PauseStage::Finished(None),
        (_, PauseEvent::TargetFound(Some(name))) => PauseStage::OpenPlayer(name),
        (PauseStage::OpenPlayer(name), PauseEvent::PlayerOpened(true)) => PauseStage::ReadStatus(
            name,
        ),
        (PauseStage::ReadStatus(name), PauseEvent::Status(status)) => if is_playing_status(
            status.as_str(),
        ) {
            PauseStage::RequestPause(name)
        } else {
            PauseStage::Finished(None)
        },
        (PauseStage::RequestPause(name), PauseEvent::PauseCalled) => PauseStage::Finished(
            Some(name),
        ),
        _ => PauseStage::Finished(None),
    }
}

/// How a Linux resume ended.
#[derive(Clone, Debug, PartialEq, Eq)]
pub enum ResumeOutcome {
    /// The service is no longer on the bus.
    Vanished,
    /// The player is not paused (it plays again, or stopped); its status.
    NotPaused(String),
    /// `Play` was called.
    Resumed,
}

/// Where a Linux resume stands.
#[derive(Clone, Debug, PartialEq, Eq)]
pub enum ResumeStage {
    /// Open the player interface of the paused service.
    OpenPlayer,
    /// Read its `PlaybackStatus`.
    ReadStatus,
    /// Call `Play` on it.
    RequestPlay,
    /// Done.
    Finished(ResumeOutcome),
}

/// What the caller reports after doing what a [`ResumeStage`] asked.
pub enum ResumeEvent {
    /// Whether the player interface could be opened; `false` when the
    /// service went away.
    PlayerOpened(bool),
    /// The playback status read.
    Status(String),
    /// `Play` was called.
    PlayCalled,
}

/// Whether `event` answers `stage`.
pub open spec fn resume_event_fits(stage: ResumeStage, event: ResumeEvent) -> bool {
    match stage {
        ResumeStage::OpenPlayer => event is PlayerOpened,
        ResumeStage::ReadStatus => event is Status,
        ResumeStage::RequestPlay => event is PlayCalled,
        ResumeStage::Finished(_) => false,
    }
}

/// The stage after `event`: only a player that is there and paused is told
/// to play; a player that went away or is not paused is left alone.
pub open spec fn resume_next_spec(event: ResumeEvent) -> ResumeStage {
    match event {
        ResumeEvent::PlayerOpened(b) => if b {
            ResumeStage::ReadStatus
        } else {
            ResumeStage::Finished(ResumeOutcome::Vanished)
        },
        ResumeEvent::Status(status) => if status@ == "Paused"@ {
            ResumeStage::RequestPlay
        } else {
            ResumeStage::Finished(ResumeOutcome::NotPaused(status))
        },
        ResumeEvent::PlayCalled => ResumeStage::Finished(ResumeOutcome::Resumed),
    }
}

/// Advances a Linux resume by what the caller reports.
pub fn resume_next(stage: ResumeStage, event: ResumeEvent) -> (next: ResumeStage)
    requires
        resume_event_fits(stage, event),
    ensures
        next == resume_next_spec(event),
{
    match event {
        ResumeEvent::PlayerOpened(b) => if b {
            ResumeStage::ReadStatus
        } else {
            ResumeStage::Finished(ResumeOutcome::Vanished)
        },
        ResumeEvent::Status(status) => if is_paused_status(status.as_str()) {
            ResumeStage::RequestPlay
        } else {
            ResumeStage::Finished(ResumeOutcome::NotPaused(status))
        },
        ResumeEvent::PlayCalled => ResumeStage::Finished(ResumeOutcome::Resumed),
    }
}

/// Play is requested on a Linux player exactly when its status is "Paused";
/// for any other status the resume ends and leaves the player alone,
/// reporting that status.
pub proof fn lemma_linux_play_only_when_paused(status: String)
    ensures
        resume_next_spec(ResumeEvent::Status(status)) == ResumeStage::RequestPlay <==> status@
            == "Paused"@,
        status@ != "Paused"@ ==> resume_next_spec(ResumeEvent::Status(status))
            == ResumeStage::Finished(ResumeOutcome::NotPaused(status)),
{
}

/// Pause is requested on a Linux player exactly when its status is
/// "Playing"; for any other status the pause ends with nothing paused.
pub proof fn lemma_linux_pause_only_when_playing(name: String, status: String)
    ensures
        pause_next_spec(PauseStage::ReadStatus(name), PauseEvent::Status(status))
            == PauseStage::RequestPause(name) <==> status@ == "Playing"@,
        status@ != "Playing"@ ==> pause_next_spec(
            PauseStage::ReadStatus(name),
            PauseEvent::Status(status),
        ) == PauseStage::Finished(None),
{
}

} // verus!
