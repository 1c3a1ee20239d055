use vstd::prelude::*;
use super::continuous::{Continuous, ContinuousView};
use super::error::{Error, ErrorView};
use super::oneshot::{Oneshot, OneshotView};
use super::protocol::{Answer, AnswerView, Call, CallView};
use crate::args::Mode;
use crate::log::{entries, Entry, EntryView};

verus! {

/// The executor that a mode of running asks for: a single pass, or the supervisor.
#[derive(Debug, PartialEq, Eq)]
pub enum Executor {
    Oneshot(Oneshot),
    Continuous(Continuous),
}

/// The mathematical value of an [`Executor`].
pub enum ExecutorView {
    Oneshot(OneshotView),
    Continuous(ContinuousView),
}

impl View for Executor {
    type V = ExecutorView;

    open spec fn view(&self) -> ExecutorView {
        match self {
            Executor::Oneshot(pass) => ExecutorView::Oneshot(pass@),
            Executor::Continuous(supervisor) => ExecutorView::Continuous(supervisor@),
        }
    }
}

impl ExecutorView {
    /// The executor for a mode, before its first call.
    pub open spec fn start(mode: Mode, target: Seq<char>, interval: u64) -> ExecutorView {
        match mode {
            Mode::OneShot => ExecutorView::Oneshot(OneshotView::start(target)),
            Mode::Continuous => ExecutorView::Continuous(ContinuousView::start(target, interval)),
        }
    }

    /// The call whose answer the executor waits for; none once it is over.
    pub open spec fn pending(self) -> Option<CallView> {
        match self {
            ExecutorView::Oneshot(pass) => pass.pending(),
            ExecutorView::Continuous(supervisor) => supervisor.pending(),
        }
    }

    /// How the run ended; none while it is under way. A supervisor never ends well.
    pub open spec fn outcome(self) -> Option<Result<(), ErrorView>> {
        match self {
            ExecutorView::Oneshot(pass) => pass.outcome(),
            ExecutorView::Continuous(supervisor) => match supervisor.outcome() {
                Some(e) => Some(Err(e)),
                None => None,
            },
        }
    }

    /// What the log is told when `answer` is given to the pending call.
    pub open spec fn notes(self, answer: AnswerView) -> Seq<EntryView> {
        match self {
            ExecutorView::Oneshot(pass) => pass.notes(answer),
            ExecutorView::Continuous(supervisor) => supervisor.notes(answer),
        }
    }

    /// The executor after `answer` was given to the pending call; none where the answer
    /// is refused.
    pub open spec fn next(self, answer: AnswerView) -> Option<ExecutorView> {
        match self {
            ExecutorView::Oneshot(pass) => match pass.next(answer) {
                Some(pass) => Some(ExecutorView::Oneshot(pass)),
                None => None,
            },
            ExecutorView::Continuous(supervisor) => match supervisor.next(answer) {
                Some(supervisor) => Some(ExecutorView::Continuous(supervisor)),
                None => None,
            },
        }
    }
}

impl Executor {
    /// The executor for a mode: a single pass for the one-shot mode, the supervisor with
    /// its default interval for the continuous mode.
    pub fn new(mode: Mode, target: &str) -> (executor: Self)
        ensures
            executor@ == ExecutorView::start(mode, target@, super::continuous::DEFAULT_INTERVAL),
    {
        match mode {
            Mode::OneShot => Executor::Oneshot(Oneshot::new(target)),
            Mode::Continuous => Executor::Continuous(Continuous::new(target)),
        }
    }

    /// The call that the host is to perform next; none once the run is over.
    pub fn pending(&self) -> (call: Option<Call>)
        ensures
            call.is_some() == self@.pending().is_some(),
            call matches Some(c) ==> self@.pending() == Some(c@),
    {
        match self {
            Executor::Oneshot(pass) => pass.pending(),
            Executor::Continuous(supervisor) => supervisor.pending(),
        }
    }

    /// How the run ended; none while it is under way.
    pub fn outcome(&self) -> (result: Option<Result<(), Error>>)
        ensures
            match result {
                Some(Ok(())) => self@.outcome() == Some(Ok::<(), ErrorView>(())),
                Some(Err(e)) => self@.outcome() == Some(Err::<(), ErrorView>(e@)),
                None => self@.outcome().is_none(),
            },
    {
        match self {
            Executor::Oneshot(pass) => pass.outcome(),
            Executor::Continuous(supervisor) => match supervisor.outcome() {
                Some(e) => Some(Err(e)),
                None => None,
            },
        }
    }

    /// What the log is to be told when `answer` is given to the pending call.
    pub fn notes(&self, answer: &Answer) -> (list: Vec<Entry>)
        ensures
            entries(list@) == self@.notes(answer@),
    {
        match self {
            Executor::Oneshot(pass) => pass.notes(answer),
            Executor::Continuous(supervisor) => supervisor.notes(answer),
        }
    }

    /// Takes the answer to the pending call and moves on. An answer that is refused
    /// leaves the executor as it was.
    pub fn advance(self, answer: Answer) -> (step: Result<Executor, Executor>)
        ensures
            match step {
                Ok(executor) => self@.next(answer@) == Some(executor@),
                Err(executor) => self@.next(answer@).is_none() && executor@ == self@,
            },
    {
        match self {
            Executor::Oneshot(pass) => match pass.advance(answer) {
                Ok(pass) => Ok(Executor::Oneshot(pass)),
                Err(pass) => Err(Executor::Oneshot(pass)),
            },
            Executor::Continuous(supervisor) => match supervisor.advance(answer) {
                Ok(supervisor) => Ok(Executor::Continuous(supervisor)),
                Err(supervisor) => Err(Executor::Continuous(supervisor)),
            },
        }
    }
}

} // verus!
