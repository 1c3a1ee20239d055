use vstd::prelude::*;
use super::error::{Error, ErrorView};
use super::oneshot::{Oneshot, OneshotView, StageView};
use super::protocol::{Answer, AnswerView, Call, CallView};
use super::reconnect::{Reconnect, ReconnectView};
use crate::connections::Error as ConnectionError;
use crate::connections::ErrorView as ConnectionErrorView;
use crate::log::{entries, error, failed, info, informed, Entry, EntryView};

verus! {

/// The seconds that the supervisor waits between two cycles unless told otherwise.
pub const DEFAULT_INTERVAL: u64 = 60;

/// Where the supervisor stands: the phase names the call whose answer it waits for.
#[derive(Debug, PartialEq, Eq)]
pub enum Phase {
    /// Before the first cycle: which connection is active? The answer is kept as the
    /// original connection.
    Capture,
    /// RECONCILE: a single pass is under way.
    Reconcile(Oneshot),
    /// VERIFY: can the internet be reached?
    Verify,
    /// RECOVER: the session is being logged out.
    Logout,
    /// RECOVER: the connection is being taken down and brought up again.
    Reconnect(Reconnect),
    /// RECOVER: the session is being logged in again.
    Login,
    /// RECOVER: can the internet be reached now?
    Reverify,
    /// IDLE: waiting for the next cycle.
    Idle,
    /// RESTORE-AND-ABORT: the network is being put back as it was; the failure that led
    /// here is kept.
    Restore(Error),
    /// The supervisor has stopped and reports this failure.
    Finished(Error),
}

/// The mathematical value of a [`Phase`].
pub enum PhaseView {
    Capture,
    Reconcile(StageView),
    Verify,
    Logout,
    Reconnect(ReconnectView),
    Login,
    Reverify,
    Idle,
    Restore(ErrorView),
    Finished(ErrorView),
}

impl View for Phase {
    type V = PhaseView;

    open spec fn view(&self) -> PhaseView {
        match self {
            Phase::Capture => PhaseView::Capture,
            Phase::Reconcile(pass) => PhaseView::Reconcile(pass@.stage),
            Phase::Verify => PhaseView::Verify,
            Phase::Logout => PhaseView::Logout,
            Phase::Reconnect(reconnect) => PhaseView::Reconnect(reconnect@),
            Phase::Login => PhaseView::Login,
            Phase::Reverify => PhaseView::Reverify,
            Phase::Idle => PhaseView::Idle,
            Phase::Restore(e) => PhaseView::Restore(e@),
            Phase::Finished(e) => PhaseView::Finished(e@),
        }
    }
}

impl PhaseView {
    /// Whether the phase belongs to RECOVER.
    pub open spec fn in_recover(self) -> bool {
        self is Logout || self is Reconnect || self is Login || self is Reverify
    }

    /// The phase that follows a pass's step: VERIFY once the pass has succeeded,
    /// RESTORE-AND-ABORT once it has failed, RECONCILE until then.
    pub open spec fn after_pass(stage: StageView) -> PhaseView {
        match stage {
            StageView::Finished(Ok(())) => PhaseView::Verify,
            StageView::Finished(Err(e)) => PhaseView::Restore(e),
            _ => PhaseView::Reconcile(stage),
        }
    }

    /// The phase that follows a reconnect's step: the login once the reconnect has
    /// succeeded, RESTORE-AND-ABORT once it has failed, the reconnect until then.
    pub open spec fn after_reconnect(reconnect: ReconnectView) -> PhaseView {
        match reconnect {
            ReconnectView::Finished(Ok(())) => PhaseView::Login,
            ReconnectView::Finished(Err(e)) => PhaseView::Restore(ErrorView::Connection(e)),
            _ => PhaseView::Reconnect(reconnect),
        }
    }

    /// RECONCILE, VERIFY and the second probe of RECOVER. A pass that fails leads to
    /// RESTORE-AND-ABORT with its failure. After a pass that succeeds the internet is
    /// probed: reachable leads to IDLE, unreachable to RECOVER. After RECOVER it is probed
    /// once more: reachable leads to IDLE, unreachable to RESTORE-AND-ABORT with the
    /// failure that there is no internet.
    pub open spec fn ensure_connectivity(self, target: Seq<char>, answer: AnswerView) -> Option<
        PhaseView,
    > {
        match (self, answer) {
            (PhaseView::Reconcile(stage), _) => match (OneshotView { target, stage }).next(answer) {
                Some(pass) => Some(Self::after_pass(pass.stage)),
                None => None,
            },
            (PhaseView::Verify, AnswerView::Reached(reached)) => Some(
                if reached {
                    PhaseView::Idle
                } else {
                    PhaseView::Logout
                },
            ),
            (PhaseView::Reverify, AnswerView::Reached(reached)) => Some(
                if reached {
                    PhaseView::Idle
                } else {
                    PhaseView::Restore(ErrorView::Connection(ConnectionErrorView::NoInternet))
                },
            ),
            _ => None,
        }
    }

    /// RECOVER up to its probe: log out, reconnect, log in. How the logout and the login
    /// end does not matter; a reconnect that fails leads to RESTORE-AND-ABORT with its
    /// failure.
    ///
    /// Beware: a login that fails here is noted and not looked at again. Where the probe
    /// that follows finds the internet, the supervisor goes on to IDLE although the
    /// session may not be logged in; the next pass finds out.
    pub open spec fn reconnect_and_login(self, answer: AnswerView) -> Option<PhaseView> {
        match (self, answer) {
            (PhaseView::Logout, AnswerView::Session(_)) => Some(
                PhaseView::Reconnect(ReconnectView::Active),
            ),
            (PhaseView::Reconnect(reconnect), _) => match reconnect.next(answer) {
                Some(reconnect) => Some(Self::after_reconnect(reconnect)),
                None => None,
            },
            (PhaseView::Login, AnswerView::Session(_)) => Some(PhaseView::Reverify),
            _ => None,
        }
    }

    /// RESTORE-AND-ABORT: however the restoration ends, the supervisor stops. It reports
    /// the failure that led here, or the restoration's own failure in its place.
    pub open spec fn restore_original_connection(self, answer: AnswerView) -> Option<PhaseView> {
        match (self, answer) {
            (PhaseView::Restore(e), AnswerView::Connection(Ok(()))) => Some(PhaseView::Finished(e)),
            (PhaseView::Restore(_), AnswerView::Connection(Err(e))) => Some(
                PhaseView::Finished(ErrorView::Connection(e)),
            ),
            _ => None,
        }
    }
}

/// The continuous supervisor: cycle after cycle it runs a single pass and checks that the
/// internet can be reached; where it cannot, it tries one recovery, and where that does
/// not help, or a pass fails, it puts the network back as it was and stops. It performs
/// nothing itself. It names one call at a time, is told the answer, and decides from that
/// what comes next.
#[derive(Debug, PartialEq, Eq)]
pub struct Continuous {
    target: String,
    original: Option<String>,
    check_interval: u64,
    phase: Phase,
}

/// The mathematical value of a [`Continuous`].
pub struct ContinuousView {
    /// The connection to maintain.
    pub target: Seq<char>,
    /// The connection that was active before the first cycle.
    pub original: Option<Seq<char>>,
    /// The seconds to wait between two cycles.
    pub interval: u64,
    pub phase: PhaseView,
}

impl View for Continuous {
    type V = ContinuousView;

    closed spec fn view(&self) -> ContinuousView {
        ContinuousView {
            target: self.target@,
            original: match self.original {
                Some(name) => Some(name@),
                None => None,
            },
            interval: self.check_interval,
            phase: self.phase@,
        }
    }
}

impl ContinuousView {
    /// A supervisor that has not begun: its first question is which connection is active.
    pub open spec fn start(target: Seq<char>, interval: u64) -> ContinuousView {
        ContinuousView { target, original: None, interval, phase: PhaseView::Capture }
    }

    /// In RECONCILE the pass is still under way: a pass that ends leaves the phase at once.
    pub open spec fn wf(self) -> bool {
        &&& self.phase matches PhaseView::Reconcile(stage) ==> !(stage is Finished)
        &&& self.phase matches PhaseView::Reconnect(reconnect) ==> !(reconnect is Finished)
    }

    /// The call that restores the network: connect to the original connection where
    /// there was one, else disconnect from the target.
    pub open spec fn restoration(self) -> CallView {
        match self.original {
            Some(name) => CallView::Connect(name),
            None => CallView::Disconnect(self.target),
        }
    }

    /// The call whose answer the supervisor waits for; none once it has stopped.
    pub open spec fn pending(self) -> Option<CallView> {
        match self.phase {
            PhaseView::Capture => Some(CallView::Active),
            PhaseView::Reconcile(stage) => OneshotView { target: self.target, stage }.pending(),
            PhaseView::Verify | PhaseView::Reverify => Some(CallView::Probe),
            PhaseView::Logout => Some(CallView::Logout),
            PhaseView::Reconnect(reconnect) => reconnect.pending(),
            PhaseView::Login => Some(CallView::Login),
            PhaseView::Idle => Some(CallView::Sleep(self.interval)),
            PhaseView::Restore(_) => Some(self.restoration()),
            PhaseView::Finished(_) => None,
        }
    }

    /// The failure that the supervisor reports; none while it runs.
    pub open spec fn outcome(self) -> Option<ErrorView> {
        match self.phase {
            PhaseView::Finished(e) => Some(e),
            _ => None,
        }
    }

    /// The supervisor in another phase.
    pub open spec fn in_phase(self, phase: PhaseView) -> ContinuousView {
        ContinuousView { phase, ..self }
    }

    /// What the log is told when `answer` is given to the pending call. During a pass
    /// these are the notes of the pass. A logout or a login that fails during RECOVER is
    /// noted with its failure and has no other effect.
    pub open spec fn notes(self, answer: AnswerView) -> Seq<EntryView> {
        match (self.phase, answer) {
            (PhaseView::Reconcile(stage), _) => (OneshotView { target: self.target, stage }).notes(
                answer,
            ),
            (PhaseView::Verify, AnswerView::Reached(false)) => seq![
                informed("No internet connection, attempting to reconnect"@),
            ],
            (PhaseView::Logout, AnswerView::Session(Err(e))) => seq![failed(e.message())],
            (
                PhaseView::Reconnect(ReconnectView::Connect(_)),
                AnswerView::Connection(Ok(())),
            ) => seq![informed("Connection reconnected"@)],
            (PhaseView::Login, AnswerView::Session(Ok(()))) => seq![
                informed("Login attempt completed"@),
            ],
            (PhaseView::Login, AnswerView::Session(Err(e))) => seq![
                failed(e.message()),
                informed("Login attempt completed"@),
            ],
            (PhaseView::Restore(_), AnswerView::Connection(Ok(()))) => seq![
                informed("Original connection restored"@),
            ],
            _ => Seq::empty(),
        }
    }

    /// The supervisor after `answer` was given to the pending call; none where it has
    /// stopped or the answer is not of the kind that the pending call is answered with.
    pub open spec fn next(self, answer: AnswerView) -> Option<ContinuousView> {
        match self.phase {
            PhaseView::Capture => match answer {
                AnswerView::Active(original) => Some(
                    ContinuousView {
                        original,
                        phase: PhaseView::Reconcile(StageView::Active),
                        ..self
                    },
                ),
                _ => None,
            },
            PhaseView::Reconcile(_) | PhaseView::Verify | PhaseView::Reverify => {
                match self.phase.ensure_connectivity(self.target, answer) {
                    Some(phase) => Some(self.in_phase(phase)),
                    None => None,
                }
            },
            PhaseView::Logout | PhaseView::Reconnect(_) | PhaseView::Login => {
                match self.phase.reconnect_and_login(answer) {
                    Some(phase) => Some(self.in_phase(phase)),
                    None => None,
                }
            },
            PhaseView::Idle => match answer {
                AnswerView::Slept => Some(self.in_phase(PhaseView::Reconcile(StageView::Active))),
                _ => None,
            },
            PhaseView::Restore(_) => match self.phase.restore_original_connection(answer) {
                Some(phase) => Some(self.in_phase(phase)),
                None => None,
            },
            PhaseView::Finished(_) => None,
        }
    }
}

impl ContinuousView {
    /// The supervisor after the answers were given one after another, each to the call
    /// then pending; none where one of them was refused.
    pub open spec fn after(self, answers: Seq<AnswerView>) -> Option<ContinuousView>
        decreases answers.len(),
    {
        if answers.len() == 0 {
            Some(self)
        } else {
            match self.after(answers.drop_last()) {
                Some(supervisor) => supervisor.next(answers.last()),
                None => None,
            }
        }
    }

    /// The state after the first `k` answers of a run that goes through.
    pub open spec fn at(self, answers: Seq<AnswerView>, k: int) -> ContinuousView {
        self.after(answers.take(k))->0
    }

    /// The call that is pending once the first `k` of the answers were given. Over
    /// `0 <= k <= answers.len()` these are the calls that the supervisor names in the run.
    pub open spec fn call(self, answers: Seq<AnswerView>, k: int) -> Option<CallView> {
        match self.after(answers.take(k)) {
            Some(supervisor) => supervisor.pending(),
            None => None,
        }
    }

    /// One more answer is one more step.
    pub proof fn lemma_after_step(self, answers: Seq<AnswerView>, k: int)
        requires
            0 <= k < answers.len(),
        ensures
            self.after(answers.take(k + 1)) == match self.after(answers.take(k)) {
                Some(supervisor) => supervisor.next(answers[k]),
                None => None,
            },
    {
        assert(answers.take(k + 1).drop_last() =~= answers.take(k));
    }

    /// A run that goes through went through up to each of its answers.
    pub proof fn lemma_after_prefix(self, answers: Seq<AnswerView>, k: int)
        requires
            0 <= k <= answers.len(),
            self.after(answers) is Some,
        ensures
            self.after(answers.take(k)) is Some,
        decreases answers.len() - k,
    {
        if k < answers.len() {
            self.lemma_after_prefix(answers, k + 1);
            self.lemma_after_step(answers, k);
        } else {
            assert(answers.take(k) =~= answers);
        }
    }

    /// A pass or a reconnect that ends leaves its phase at once: the supervisor never
    /// waits in a phase that names no call, short of having stopped.
    pub proof fn lemma_stays_well_formed(self, answers: Seq<AnswerView>, k: int)
        requires
            self.wf(),
            self.after(answers) is Some,
            0 <= k <= answers.len(),
        ensures
            self.at(answers, k).wf(),
            self.at(answers, k).pending().is_none() <==> self.at(answers, k).phase is Finished,
        decreases k,
    {
        self.lemma_after_prefix(answers, k);
        if k == 0 {
            assert(self.after(answers.take(0)) == Some(self));
        } else {
            self.lemma_after_prefix(answers, k - 1);
            self.lemma_after_step(answers, k - 1);
            self.lemma_stays_well_formed(answers, k - 1);
        }
    }

    /// The original connection is the one that the first answer named: it is captured
    /// once, before the first pass, and kept from then on, as are the target and the
    /// interval.
    pub proof fn lemma_original_is_kept(self, answers: Seq<AnswerView>, k: int)
        requires
            self.phase is Capture,
            self.after(answers) is Some,
            1 <= k <= answers.len(),
        ensures
            answers[0] is Active,
            self.at(answers, k).original == answers[0]->Active_0,
            self.at(answers, k).target == self.target,
            self.at(answers, k).interval == self.interval,
            !(self.at(answers, k).phase is Capture),
        decreases k,
    {
        self.lemma_after_prefix(answers, k);
        self.lemma_after_prefix(answers, k - 1);
        self.lemma_after_step(answers, k - 1);
        if k == 1 {
            assert(self.after(answers.take(0)) == Some(self));
        } else {
            self.lemma_original_is_kept(answers, k - 1);
        }
    }
}

impl Continuous {
    #[verifier::type_invariant]
    spec fn inv(self) -> bool {
        &&& self.phase matches Phase::Reconcile(pass) ==> pass@.target == self.target@
        &&& self@.wf()
    }

    /// A supervisor for `target` that has not begun and waits the default interval
    /// between two cycles.
    pub fn new(target: &str) -> (supervisor: Self)
        ensures
            supervisor@ == ContinuousView::start(target@, DEFAULT_INTERVAL),
    {
        Continuous {
            target: target.to_owned(),
            original: None,
            check_interval: DEFAULT_INTERVAL,
            phase: Phase::Capture,
        }
    }

    /// The same supervisor with another interval between two cycles.
    pub fn with_interval(self, seconds: u64) -> (supervisor: Self)
        ensures
            supervisor@ == (ContinuousView { interval: seconds, ..self@ }),
    {
        proof {
            use_type_invariant(&self);
        }
        Continuous {
            target: self.target,
            original: self.original,
            check_interval: seconds,
            phase: self.phase,
        }
    }

    /// The call that restores the network.
    fn restoration(&self) -> (call: Call)
        ensures
            call@ == self@.restoration(),
    {
        match &self.original {
            Some(name) => Call::Connect(name.clone()),
            None => Call::Disconnect(self.target.clone()),
        }
    }

    /// The call that the host is to perform next; none once the supervisor has stopped.
    pub fn pending(&self) -> (call: Option<Call>)
        ensures
            self@.wf(),
            call.is_some() == self@.pending().is_some(),
            call matches Some(c) ==> self@.pending() == Some(c@),
            call.is_none() == (self@.phase is Finished),
    {
        proof {
            use_type_invariant(self);
        }
        match &self.phase {
            Phase::Capture => Some(Call::Active),
            Phase::Reconcile(pass) => pass.pending(),
            Phase::Verify => Some(Call::Probe),
            Phase::Reverify => Some(Call::Probe),
            Phase::Logout => Some(Call::Logout),
            Phase::Reconnect(reconnect) => reconnect.pending(),
            Phase::Login => Some(Call::Login),
            Phase::Idle => Some(Call::Sleep(self.check_interval)),
            Phase::Restore(_) => Some(self.restoration()),
            Phase::Finished(_) => None,
        }
    }

    /// The failure that the supervisor reports; none while it runs.
    pub fn outcome(&self) -> (failure: Option<Error>)
        ensures
            failure.is_some() == self@.outcome().is_some(),
            failure matches Some(e) ==> self@.outcome() == Some(e@),
    {
        match &self.phase {
            Phase::Finished(e) => Some(e.clone()),
            _ => None,
        }
    }

    /// Whether `answer` is of the kind that the pending call is answered with.
    pub fn accepts(&self, answer: &Answer) -> (fits: bool)
        ensures
            fits == self@.next(answer@).is_some(),
            fits == (self@.pending() matches Some(call) && call.admits(answer@)),
    {
        proof {
            use_type_invariant(self);
        }
        match (&self.phase, answer) {
            (Phase::Capture, Answer::Active(_)) => true,
            (Phase::Reconcile(pass), _) => pass.accepts(answer),
            (Phase::Verify, Answer::Reached(_)) => true,
            (Phase::Reverify, Answer::Reached(_)) => true,
            (Phase::Logout, Answer::Session(_)) => true,
            (Phase::Reconnect(reconnect), _) => reconnect.accepts(answer),
            (Phase::Login, Answer::Session(_)) => true,
            (Phase::Idle, Answer::Slept) => true,
            (Phase::Restore(_), Answer::Connection(_)) => true,
            _ => false,
        }
    }

    /// What the log is to be told when `answer` is given to the pending call.
    pub fn notes(&self, answer: &Answer) -> (list: Vec<Entry>)
        ensures
            entries(list@) == self@.notes(answer@),
    {
        proof {
            use_type_invariant(self);
        }
        let mut list: Vec<Entry> = Vec::new();
        match (&self.phase, answer) {
            (Phase::Reconcile(pass), _) => {
                return pass.notes(answer);
            },
            (Phase::Verify, Answer::Reached(false)) => {
                list.push(info("No internet connection, attempting to reconnect"));
            },
            (Phase::Logout, Answer::Session(Err(e))) => {
                list.push(error(e.to_string().as_str()));
            },
            (Phase::Reconnect(Reconnect::Connect(_)), Answer::Connection(Ok(()))) => {
                list.push(info("Connection reconnected"));
            },
            (Phase::Login, Answer::Session(Ok(()))) => {
                list.push(info("Login attempt completed"));
            },
            (Phase::Login, Answer::Session(Err(e))) => {
                list.push(error(e.to_string().as_str()));
                list.push(info("Login attempt completed"));
            },
            (Phase::Restore(_), Answer::Connection(Ok(()))) => {
                list.push(info("Original connection restored"));
            },
            _ => {},
        }
        assert(entries(list@) =~= self@.notes(answer@));
        list
    }

    /// RECONCILE, VERIFY and the second probe of RECOVER: the phase after `answer`.
    fn ensure_connectivity(target: &String, phase: Phase, answer: Answer) -> (step: Result<
        Phase,
        Phase,
    >)
        requires
            phase is Reconcile || phase is Verify || phase is Reverify,
            phase matches Phase::Reconcile(pass) ==> pass@.target == target@,
        ensures
            match step {
                Ok(next) => phase@.ensure_connectivity(target@, answer@) == Some(next@),
                Err(same) => phase@.ensure_connectivity(target@, answer@).is_none() && same@
                    == phase@,
            },
            match step {
                Ok(next) | Err(next) => next matches Phase::Reconcile(pass) ==> pass@.target
                    == target@,
            },
    {
        match (phase, answer) {
            (Phase::Reconcile(pass), answer) => match pass.advance(answer) {
                Ok(pass) => match pass.outcome() {
                    Some(Ok(())) => Ok(Phase::Verify),
                    Some(Err(e)) => Ok(Phase::Restore(e)),
                    None => Ok(Phase::Reconcile(pass)),
                },
                Err(pass) => Err(Phase::Reconcile(pass)),
            },
            (Phase::Verify, Answer::Reached(true)) => Ok(Phase::Idle),
            (Phase::Verify, Answer::Reached(false)) => Ok(Phase::Logout),
            (Phase::Reverify, Answer::Reached(true)) => Ok(Phase::Idle),
            (Phase::Reverify, Answer::Reached(false)) => Ok(
                Phase::Restore(Error::Connection(ConnectionError::NoInternet)),
            ),
            (phase, _) => Err(phase),
        }
    }

    /// RECOVER up to its probe: the phase after `answer`.
    fn reconnect_and_login(phase: Phase, answer: Answer) -> (step: Result<Phase, Phase>)
        requires
            phase is Logout || phase is Reconnect || phase is Login,
        ensures
            match step {
                Ok(next) => phase@.reconnect_and_login(answer@) == Some(next@),
                Err(same) => phase@.reconnect_and_login(answer@).is_none() && same@ == phase@,
            },
            match step {
                Ok(next) | Err(next) => !(next is Reconcile),
            },
    {
        match (phase, answer) {
            (Phase::Logout, Answer::Session(_)) => Ok(Phase::Reconnect(Reconnect::new())),
            (Phase::Reconnect(reconnect), answer) => match reconnect.advance(answer) {
                Ok(reconnect) => match reconnect.outcome() {
                    Some(Ok(())) => Ok(Phase::Login),
                    Some(Err(e)) => Ok(Phase::Restore(Error::Connection(e))),
                    None => Ok(Phase::Reconnect(reconnect)),
                },
                Err(reconnect) => Err(Phase::Reconnect(reconnect)),
            },
            (Phase::Login, Answer::Session(_)) => Ok(Phase::Reverify),
            (phase, _) => Err(phase),
        }
    }

    /// RESTORE-AND-ABORT: the phase after `answer`.
    fn restore_original_connection(phase: Phase, answer: Answer) -> (step: Result<Phase, Phase>)
        requires
            phase is Restore,
        ensures
            match step {
                Ok(next) => phase@.restore_original_connection(answer@) == Some(next@),
                Err(same) => phase@.restore_original_connection(answer@).is_none() && same@
                    == phase@,
            },
            match step {
                Ok(next) | Err(next) => !(next is Reconcile),
            },
    {
        match (phase, answer) {
            (Phase::Restore(e), Answer::Connection(Ok(()))) => Ok(Phase::Finished(e)),
            (Phase::Restore(_), Answer::Connection(Err(e))) => Ok(
                Phase::Finished(Error::Connection(e)),
            ),
            (phase, _) => Err(phase),
        }
    }

    /// Takes the answer to the pending call and moves on. An answer of the wrong kind, or
    /// any answer once the supervisor has stopped, is refused: the supervisor comes back
    /// as it was.
    pub fn advance(self, answer: Answer) -> (step: Result<Continuous, Continuous>)
        ensures
            match step {
                Ok(supervisor) => self@.next(answer@) == Some(supervisor@) && supervisor@.wf(),
                Err(supervisor) => self@.next(answer@).is_none() && supervisor@ == self@,
            },
    {
        proof {
            use_type_invariant(&self);
        }
        let Continuous { target, original, check_interval, phase } = self;
        let step = match phase {
            Phase::Capture => match answer {
                Answer::Active(name) => {
                    return Ok(
                        Continuous {
                            phase: Phase::Reconcile(Oneshot::new(target.as_str())),
                            target,
                            original: name,
                            check_interval,
                        },
                    );
                },
                _ => Err(Phase::Capture),
            },
            Phase::Reconcile(_) | Phase::Verify | Phase::Reverify => Self::ensure_connectivity(
                &target,
                phase,
                answer,
            ),
            Phase::Logout | Phase::Reconnect(_) | Phase::Login => Self::reconnect_and_login(
                phase,
                answer,
            ),
            Phase::Idle => match answer {
                Answer::Slept => Ok(Phase::Reconcile(Oneshot::new(target.as_str()))),
                _ => Err(Phase::Idle),
            },
            Phase::Restore(_) => Self::restore_original_connection(phase, answer),
            Phase::Finished(e) => Err(Phase::Finished(e)),
        };
        match step {
            Ok(phase) => Ok(Continuous { target, original, check_interval, phase }),
            Err(phase) => Err(Continuous { target, original, check_interval, phase }),
        }
    }
}

} // verus!
