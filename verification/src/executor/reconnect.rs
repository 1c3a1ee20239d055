use vstd::prelude::*;
use super::protocol::{Answer, AnswerView, Call, CallView};
use crate::connections::Error;
use crate::connections::ErrorView;

verus! {

/// The network controller's reconnect: take the active connection down, then bring the
/// same connection up again. The value says which call it waits for.
#[derive(Debug, PartialEq, Eq)]
pub enum Reconnect {
    /// Which connection is active?
    Active,
    /// The active connection is being taken down.
    Disconnect(String),
    /// The same connection is being brought up again.
    Connect(String),
    /// The reconnect is over, with this outcome.
    Finished(Result<(), Error>),
}

/// The mathematical value of a [`Reconnect`].
pub enum ReconnectView {
    Active,
    Disconnect(Seq<char>),
    Connect(Seq<char>),
    Finished(Result<(), ErrorView>),
}

impl View for Reconnect {
    type V = ReconnectView;

    open spec fn view(&self) -> ReconnectView {
        match self {
            Reconnect::Active => ReconnectView::Active,
            Reconnect::Disconnect(name) => ReconnectView::Disconnect(name@),
            Reconnect::Connect(name) => ReconnectView::Connect(name@),
            Reconnect::Finished(Ok(())) => ReconnectView::Finished(Ok(())),
            Reconnect::Finished(Err(e)) => ReconnectView::Finished(Err(e@)),
        }
    }
}

impl ReconnectView {
    /// The call whose answer the reconnect waits for; none once it is over.
    pub open spec fn pending(self) -> Option<CallView> {
        match self {
            ReconnectView::Active => Some(CallView::Active),
            ReconnectView::Disconnect(name) => Some(CallView::Disconnect(name)),
            ReconnectView::Connect(name) => Some(CallView::Connect(name)),
            ReconnectView::Finished(_) => None,
        }
    }

    /// How the reconnect ended; none while it is under way.
    pub open spec fn outcome(self) -> Option<Result<(), ErrorView>> {
        match self {
            ReconnectView::Finished(result) => Some(result),
            _ => None,
        }
    }

    /// The reconnect after `answer` was given to the pending call. With no active
    /// connection it fails as unavailable; a failed disconnect or connect ends it with
    /// that failure. None where it is over or the answer is of the wrong kind.
    pub open spec fn next(self, answer: AnswerView) -> Option<ReconnectView> {
        match (self, answer) {
            (ReconnectView::Active, AnswerView::Active(Some(name))) => Some(
                ReconnectView::Disconnect(name),
            ),
            (ReconnectView::Active, AnswerView::Active(None)) => Some(
                ReconnectView::Finished(Err(ErrorView::Unavailable)),
            ),
            (ReconnectView::Disconnect(name), AnswerView::Connection(Ok(()))) => Some(
                ReconnectView::Connect(name),
            ),
            (ReconnectView::Connect(_), AnswerView::Connection(Ok(()))) => Some(
                ReconnectView::Finished(Ok(())),
            ),
            (ReconnectView::Disconnect(_), AnswerView::Connection(Err(e)))
            | (ReconnectView::Connect(_), AnswerView::Connection(Err(e))) => Some(
                ReconnectView::Finished(Err(e)),
            ),
            _ => None,
        }
    }
}

impl Reconnect {
    /// A reconnect that has not begun.
    pub fn new() -> (reconnect: Self)
        ensures
            reconnect@ == ReconnectView::Active,
    {
        Reconnect::Active
    }

    /// The call that the host is to perform next; none once the reconnect is over.
    pub fn pending(&self) -> (call: Option<Call>)
        ensures
            call.is_some() == self@.pending().is_some(),
            call matches Some(c) ==> self@.pending() == Some(c@),
    {
        match self {
            Reconnect::Active => Some(Call::Active),
            Reconnect::Disconnect(name) => Some(Call::Disconnect(name.clone())),
            Reconnect::Connect(name) => Some(Call::Connect(name.clone())),
            Reconnect::Finished(_) => None,
        }
    }

    /// How the reconnect ended; none while it is under way.
    pub fn outcome(&self) -> (result: Option<Result<(), Error>>)
        ensures
            match result {
                Some(Ok(())) => self@.outcome() == Some(Ok::<(), ErrorView>(())),
                Some(Err(e)) => self@.outcome() == Some(Err::<(), ErrorView>(e@)),
                None => self@.outcome().is_none(),
            },
    {
        match self {
            Reconnect::Finished(Ok(())) => Some(Ok(())),
            Reconnect::Finished(Err(e)) => Some(Err(e.clone())),
            _ => None,
        }
    }

    /// Whether `answer` is of the kind that the pending call is answered with.
    pub fn accepts(&self, answer: &Answer) -> (fits: bool)
        ensures
            fits == self@.next(answer@).is_some(),
            fits == (self@.pending() matches Some(call) && call.admits(answer@)),
    {
        match (self, answer) {
            (Reconnect::Active, Answer::Active(_)) => true,
            (Reconnect::Disconnect(_), Answer::Connection(_)) => true,
            (Reconnect::Connect(_), Answer::Connection(_)) => true,
            _ => false,
        }
    }

    /// Takes the answer to the pending call and moves on. An answer of the wrong kind, or
    /// any answer once the reconnect is over, is refused: the value comes back as it was.
    pub fn advance(self, answer: Answer) -> (step: Result<Reconnect, Reconnect>)
        ensures
            match step {
                Ok(reconnect) => self@.next(answer@) == Some(reconnect@),
                Err(reconnect) => self@.next(answer@).is_none() && reconnect@ == self@,
            },
    {
        match (self, answer) {
            (Reconnect::Active, Answer::Active(Some(name))) => Ok(Reconnect::Disconnect(name)),
            (Reconnect::Active, Answer::Active(None)) => Ok(
                Reconnect::Finished(Err(Error::Unavailable)),
            ),
            (Reconnect::Disconnect(name), Answer::Connection(Ok(()))) => Ok(
                Reconnect::Connect(name),
            ),
            (Reconnect::Connect(_), Answer::Connection(Ok(()))) => Ok(Reconnect::Finished(Ok(()))),
            (Reconnect::Disconnect(_), Answer::Connection(Err(e))) => Ok(
                Reconnect::Finished(Err(e)),
            ),
            (Reconnect::Connect(_), Answer::Connection(Err(e))) => Ok(Reconnect::Finished(Err(e))),
            (reconnect, _) => Err(reconnect),
        }
    }
}

} // verus!
