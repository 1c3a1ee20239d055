use vstd::prelude::*;
use super::error::{Error, ErrorView};
use super::protocol::{Answer, AnswerView, Call, CallView};
use crate::log::{entries, info, informed, warn, warned, Entry, EntryView};

verus! {

/// Where a single pass stands: the stage names the call whose answer it waits for.
#[derive(Debug, PartialEq, Eq)]
pub enum Stage {
    /// Connection step: which connection is active?
    Active,
    /// Connection step: another connection is being taken down.
    Disconnect(String),
    /// Connection step: is the target up?
    IsConnected,
    /// Connection step: the target is being brought up.
    Connect,
    /// Session step: is the session logged in?
    IsLogged,
    /// Session step: the login is under way.
    Login,
    /// The pass is over, with this outcome.
    Finished(Result<(), Error>),
}

/// The mathematical value of a [`Stage`].
pub enum StageView {
    Active,
    Disconnect(Seq<char>),
    IsConnected,
    Connect,
    IsLogged,
    Login,
    Finished(Result<(), ErrorView>),
}

impl View for Stage {
    type V = StageView;

    open spec fn view(&self) -> StageView {
        match self {
            Stage::Active => StageView::Active,
            Stage::Disconnect(name) => StageView::Disconnect(name@),
            Stage::IsConnected => StageView::IsConnected,
            Stage::Connect => StageView::Connect,
            Stage::IsLogged => StageView::IsLogged,
            Stage::Login => StageView::Login,
            Stage::Finished(Ok(())) => StageView::Finished(Ok(())),
            Stage::Finished(Err(e)) => StageView::Finished(Err(e@)),
        }
    }
}

impl StageView {
    /// Whether the stage belongs to the connection step.
    pub open spec fn in_connection_step(self) -> bool {
        self is Active || self is Disconnect || self is IsConnected || self is Connect
    }

    /// How far the pass has come: each step takes it to a later stage.
    pub open spec fn rank(self) -> int {
        match self {
            StageView::Active => 0,
            StageView::Disconnect(_) => 1,
            StageView::IsConnected => 2,
            StageView::Connect => 3,
            StageView::IsLogged => 4,
            StageView::Login => 5,
            StageView::Finished(_) => 6,
        }
    }
}

/// The single-pass reconciler: it brings the live connection and the live session to the
/// desired state once. It performs nothing itself. It names one call at a time, is told
/// the answer, and decides from that what comes next.
#[derive(Debug, PartialEq, Eq)]
pub struct Oneshot {
    target: String,
    stage: Stage,
}

/// The mathematical value of a [`Oneshot`]: the target's name and the stage reached.
pub struct OneshotView {
    pub target: Seq<char>,
    pub stage: StageView,
}

impl View for Oneshot {
    type V = OneshotView;

    closed spec fn view(&self) -> OneshotView {
        OneshotView { target: self.target@, stage: self.stage@ }
    }
}

impl OneshotView {
    /// A pass that has not begun: its first question is which connection is active.
    pub open spec fn start(target: Seq<char>) -> OneshotView {
        OneshotView { target, stage: StageView::Active }
    }

    /// The call whose answer the pass waits for; none once it is over.
    pub open spec fn pending(self) -> Option<CallView> {
        match self.stage {
            StageView::Active => Some(CallView::Active),
            StageView::Disconnect(name) => Some(CallView::Disconnect(name)),
            StageView::IsConnected => Some(CallView::IsConnected(self.target)),
            StageView::Connect => Some(CallView::Connect(self.target)),
            StageView::IsLogged => Some(CallView::IsLogged),
            StageView::Login => Some(CallView::Login),
            StageView::Finished(_) => None,
        }
    }

    /// How the pass ended; none while it is under way.
    pub open spec fn outcome(self) -> Option<Result<(), ErrorView>> {
        match self.stage {
            StageView::Finished(result) => Some(result),
            _ => None,
        }
    }

    /// The connection step. An active connection other than the target is taken down
    /// first; then the target is brought up unless it is up already. A failed disconnect
    /// or connect ends the pass with that failure. The step hands over to the session
    /// step once the target is up.
    pub open spec fn setup_connection(self, answer: AnswerView) -> Option<StageView> {
        match (self.stage, answer) {
            (StageView::Active, AnswerView::Active(Some(name))) => Some(
                if name != self.target {
                    StageView::Disconnect(name)
                } else {
                    StageView::IsConnected
                },
            ),
            (StageView::Active, AnswerView::Active(None)) => Some(StageView::IsConnected),
            (StageView::Disconnect(_), AnswerView::Connection(Ok(()))) => Some(
                StageView::IsConnected,
            ),
            (StageView::Disconnect(_), AnswerView::Connection(Err(e))) => Some(
                StageView::Finished(Err(ErrorView::Connection(e))),
            ),
            (StageView::IsConnected, AnswerView::Connected(up)) => Some(
                if up {
                    StageView::IsLogged
                } else {
                    StageView::Connect
                },
            ),
            (StageView::Connect, AnswerView::Connection(Ok(()))) => Some(StageView::IsLogged),
            (StageView::Connect, AnswerView::Connection(Err(e))) => Some(
                StageView::Finished(Err(ErrorView::Connection(e))),
            ),
            _ => None,
        }
    }

    /// The session step. A session that is not logged in is logged in; a failed login
    /// ends the pass with that failure.
    pub open spec fn setup_session(self, answer: AnswerView) -> Option<StageView> {
        match (self.stage, answer) {
            (StageView::IsLogged, AnswerView::Logged(logged)) => Some(
                if logged {
                    StageView::Finished(Ok(()))
                } else {
                    StageView::Login
                },
            ),
            (StageView::Login, AnswerView::Session(Ok(()))) => Some(StageView::Finished(Ok(()))),
            (StageView::Login, AnswerView::Session(Err(e))) => Some(
                StageView::Finished(Err(ErrorView::Session(e))),
            ),
            _ => None,
        }
    }

    /// What the log is told when `answer` is given to the pending call: what was found
    /// and what was done about it. A failure is not noted here, it is the outcome.
    pub open spec fn notes(self, answer: AnswerView) -> Seq<EntryView> {
        match (self.stage, answer) {
            (StageView::Active, AnswerView::Active(Some(name))) => if name != self.target {
                seq![warned("connection not main"@)]
            } else {
                Seq::empty()
            },
            (StageView::Disconnect(_), AnswerView::Connection(Ok(()))) => seq![
                informed("main connection disconnected"@),
            ],
            (StageView::IsConnected, AnswerView::Connected(up)) => if up {
                seq![informed("connection already active"@)]
            } else {
                seq![warned("connection not active"@)]
            },
            (StageView::Connect, AnswerView::Connection(Ok(()))) => seq![
                informed("connection active"@),
            ],
            (StageView::IsLogged, AnswerView::Logged(logged)) => if logged {
                seq![informed("session active"@)]
            } else {
                seq![warned("session not active"@)]
            },
            (StageView::Login, AnswerView::Session(Ok(()))) => seq![
                informed("session logged in"@),
            ],
            _ => Seq::empty(),
        }
    }

    /// The pass after `answer` was given to the pending call; none where the pass is over
    /// or the answer is not of the kind that the pending call is answered with.
    pub open spec fn next(self, answer: AnswerView) -> Option<OneshotView> {
        let stage = if self.stage.in_connection_step() {
            self.setup_connection(answer)
        } else {
            self.setup_session(answer)
        };
        match stage {
            Some(stage) => Some(OneshotView { target: self.target, stage }),
            None => None,
        }
    }
}

impl OneshotView {
    /// The pass after the answers were given one after another, each to the call then
    /// pending; none where one of them was refused.
    pub open spec fn after(self, answers: Seq<AnswerView>) -> Option<OneshotView>
        decreases answers.len(),
    {
        if answers.len() == 0 {
            Some(self)
        } else {
            match self.after(answers.drop_last()) {
                Some(pass) => pass.next(answers.last()),
                None => None,
            }
        }
    }

    /// The call that is pending once the first `k` of the answers were given. Over
    /// `0 <= k <= answers.len()` these are the calls that the pass names in the run.
    pub open spec fn call(self, answers: Seq<AnswerView>, k: int) -> Option<CallView> {
        match self.after(answers.take(k)) {
            Some(pass) => pass.pending(),
            None => None,
        }
    }

    /// One more answer is one more step.
    pub proof fn lemma_after_step(self, answers: Seq<AnswerView>, k: int)
        requires
            0 <= k < answers.len(),
        ensures
            self.after(answers.take(k + 1)) == match self.after(answers.take(k)) {
                Some(pass) => pass.next(answers[k]),
                None => None,
            },
    {
        assert(answers.take(k + 1).drop_last() =~= answers.take(k));
    }

    /// A run that goes through went through up to each of its answers, and the target
    /// stays what it was.
    pub proof fn lemma_after_prefix(self, answers: Seq<AnswerView>, k: int)
        requires
            0 <= k <= answers.len(),
            self.after(answers) is Some,
        ensures
            self.after(answers.take(k)) matches Some(pass) && pass.target == self.target,
        decreases answers.len() - k,
    {
        if k < answers.len() {
            self.lemma_after_prefix(answers, k + 1);
            self.lemma_after_step(answers, k);
        } else {
            assert(answers.take(k) =~= answers);
            self.lemma_after_target(answers);
        }
    }

    /// The state after the first `k` answers of a run that goes through.
    pub open spec fn at(self, answers: Seq<AnswerView>, k: int) -> OneshotView {
        self.after(answers.take(k))->0
    }

    /// Every step takes the pass to a later stage, so a pass is over after six answers
    /// at most.
    pub proof fn lemma_progress(self, answers: Seq<AnswerView>, i: int, k: int)
        requires
            self.after(answers) is Some,
            0 <= i <= k <= answers.len(),
        ensures
            self.at(answers, i).stage.rank() + (k - i) <= self.at(answers, k).stage.rank(),
        decreases k - i,
    {
        if i < k {
            self.lemma_progress(answers, i, k - 1);
            self.lemma_after_prefix(answers, k - 1);
            self.lemma_after_prefix(answers, k);
            self.lemma_after_step(answers, k - 1);
        }
    }

    /// No step changes the target.
    pub proof fn lemma_after_target(self, answers: Seq<AnswerView>)
        requires
            self.after(answers) is Some,
        ensures
            self.after(answers)->0.target == self.target,
        decreases answers.len(),
    {
        if answers.len() > 0 {
            self.lemma_after_target(answers.drop_last());
        }
    }
}

impl Oneshot {
    /// A pass for `target` that has not begun.
    pub fn new(target: &str) -> (pass: Self)
        ensures
            pass@ == OneshotView::start(target@),
    {
        Oneshot { target: target.to_owned(), stage: Stage::Active }
    }

    /// The name of the connection that the pass establishes.
    pub fn target(&self) -> (name: &str)
        ensures
            name@ == self@.target,
    {
        self.target.as_str()
    }

    /// The call that the host is to perform next; none once the pass is over.
    pub fn pending(&self) -> (call: Option<Call>)
        ensures
            call.is_some() == self@.pending().is_some(),
            call matches Some(c) ==> self@.pending() == Some(c@),
    {
        match &self.stage {
            Stage::Active => Some(Call::Active),
            Stage::Disconnect(name) => Some(Call::Disconnect(name.clone())),
            Stage::IsConnected => Some(Call::IsConnected(self.target.clone())),
            Stage::Connect => Some(Call::Connect(self.target.clone())),
            Stage::IsLogged => Some(Call::IsLogged),
            Stage::Login => Some(Call::Login),
            Stage::Finished(_) => None,
        }
    }

    /// How the pass ended; none while it is under way.
    pub fn outcome(&self) -> (result: Option<Result<(), Error>>)
        ensures
            match result {
                Some(Ok(())) => self@.outcome() == Some(Ok::<(), ErrorView>(())),
                Some(Err(e)) => self@.outcome() == Some(Err::<(), ErrorView>(e@)),
                None => self@.outcome().is_none(),
            },
    {
        match &self.stage {
            Stage::Finished(Ok(())) => Some(Ok(())),
            Stage::Finished(Err(e)) => Some(Err(e.clone())),
            _ => None,
        }
    }

    /// Whether `answer` is of the kind that the pending call is answered with.
    pub fn accepts(&self, answer: &Answer) -> (fits: bool)
        ensures
            fits == self@.next(answer@).is_some(),
            fits == (self@.pending() matches Some(call) && call.admits(answer@)),
    {
        match (&self.stage, answer) {
            (Stage::Active, Answer::Active(_)) => true,
            (Stage::Disconnect(_), Answer::Connection(_)) => true,
            (Stage::IsConnected, Answer::Connected(_)) => true,
            (Stage::Connect, Answer::Connection(_)) => true,
            (Stage::IsLogged, Answer::Logged(_)) => true,
            (Stage::Login, Answer::Session(_)) => true,
            _ => false,
        }
    }

    /// What the log is to be told when `answer` is given to the pending call.
    pub fn notes(&self, answer: &Answer) -> (list: Vec<Entry>)
        ensures
            entries(list@) == self@.notes(answer@),
    {
        let mut list: Vec<Entry> = Vec::new();
        match (&self.stage, answer) {
            (Stage::Active, Answer::Active(Some(name))) => {
                if *name != self.target {
                    list.push(warn("connection not main"));
                }
            },
            (Stage::Disconnect(_), Answer::Connection(Ok(()))) => {
                list.push(info("main connection disconnected"));
            },
            (Stage::IsConnected, Answer::Connected(true)) => {
                list.push(info("connection already active"));
            },
            (Stage::IsConnected, Answer::Connected(false)) => {
                list.push(warn("connection not active"));
            },
            (Stage::Connect, Answer::Connection(Ok(()))) => {
                list.push(info("connection active"));
            },
            (Stage::IsLogged, Answer::Logged(true)) => {
                list.push(info("session active"));
            },
            (Stage::IsLogged, Answer::Logged(false)) => {
                list.push(warn("session not active"));
            },
            (Stage::Login, Answer::Session(Ok(()))) => {
                list.push(info("session logged in"));
            },
            _ => {},
        }
        assert(entries(list@) =~= self@.notes(answer@));
        list
    }

    /// The connection step: the pass after `answer`, while it works on the connection.
    fn setup_connection(self, answer: Answer) -> (pass: Oneshot)
        requires
            self@.setup_connection(answer@).is_some(),
        ensures
            pass@.target == self@.target,
            Some(pass@.stage) == self@.setup_connection(answer@),
    {
        let stage = match (self.stage, answer) {
            (Stage::Active, Answer::Active(Some(name))) => {
                if name != self.target {
                    Stage::Disconnect(name)
                } else {
                    Stage::IsConnected
                }
            },
            (Stage::Disconnect(_), Answer::Connection(Err(e))) => Stage::Finished(
                Err(Error::Connection(e)),
            ),
            (Stage::IsConnected, Answer::Connected(true)) => Stage::IsLogged,
            (Stage::IsConnected, Answer::Connected(false)) => Stage::Connect,
            (Stage::Connect, Answer::Connection(Ok(()))) => Stage::IsLogged,
            (Stage::Connect, Answer::Connection(Err(e))) => Stage::Finished(
                Err(Error::Connection(e)),
            ),
            // No connection is active, or the active one has been taken down.
            _ => Stage::IsConnected,
        };
        Oneshot { target: self.target, stage }
    }

    /// The session step: the pass after `answer`, while it works on the session.
    fn setup_session(self, answer: Answer) -> (pass: Oneshot)
        requires
            self@.setup_session(answer@).is_some(),
        ensures
            pass@.target == self@.target,
            Some(pass@.stage) == self@.setup_session(answer@),
    {
        let stage = match (self.stage, answer) {
            (Stage::IsLogged, Answer::Logged(false)) => Stage::Login,
            (Stage::Login, Answer::Session(Err(e))) => Stage::Finished(Err(Error::Session(e))),
            // The session is logged in, or has just been logged in.
            _ => Stage::Finished(Ok(())),
        };
        Oneshot { target: self.target, stage }
    }

    /// Takes the answer to the pending call and moves on. An answer of the wrong kind, or
    /// any answer once the pass is over, is refused: the pass comes back as it was.
    pub fn advance(self, answer: Answer) -> (step: Result<Oneshot, Oneshot>)
        ensures
            match step {
                Ok(pass) => self@.next(answer@) == Some(pass@),
                Err(pass) => self@.next(answer@).is_none() && pass@ == self@,
            },
    {
        if !self.accepts(&answer) {
            return Err(self);
        }
        match &self.stage {
            Stage::IsLogged | Stage::Login => Ok(self.setup_session(answer)),
            _ => Ok(self.setup_connection(answer)),
        }
    }
}

} // verus!
