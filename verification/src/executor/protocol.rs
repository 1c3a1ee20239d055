use vstd::prelude::*;
use crate::connections::Error as ConnectionError;
use crate::connections::ErrorView as ConnectionErrorView;
use crate::session::Error as SessionError;
use crate::session::ErrorView as SessionErrorView;

verus! {

/// An operation that an executor asks its host to perform on the network controller,
/// on the session client or on the machine itself.
#[derive(Debug, PartialEq, Eq)]
pub enum Call {
    /// Which connection is active?
    Active,
    /// Is this connection up?
    IsConnected(String),
    /// Bring this connection up.
    Connect(String),
    /// Take this connection down.
    Disconnect(String),
    /// Is the portal session logged in?
    IsLogged,
    /// Log in to the portal.
    Login,
    /// Log out of the portal.
    Logout,
    /// Can the internet be reached?
    Probe,
    /// Wait for this many seconds.
    Sleep(u64),
}

/// The mathematical value of a [`Call`].
pub enum CallView {
    Active,
    IsConnected(Seq<char>),
    Connect(Seq<char>),
    Disconnect(Seq<char>),
    IsLogged,
    Login,
    Logout,
    Probe,
    Sleep(u64),
}

impl View for Call {
    type V = CallView;

    open spec fn view(&self) -> CallView {
        match self {
            Call::Active => CallView::Active,
            Call::IsConnected(name) => CallView::IsConnected(name@),
            Call::Connect(name) => CallView::Connect(name@),
            Call::Disconnect(name) => CallView::Disconnect(name@),
            Call::IsLogged => CallView::IsLogged,
            Call::Login => CallView::Login,
            Call::Logout => CallView::Logout,
            Call::Probe => CallView::Probe,
            Call::Sleep(seconds) => CallView::Sleep(*seconds),
        }
    }
}

/// What the host observed when it performed a [`Call`].
#[derive(Debug, PartialEq, Eq)]
pub enum Answer {
    /// The active connection, if there is one.
    Active(Option<String>),
    /// Whether the connection asked about is up.
    Connected(bool),
    /// How a connect or a disconnect ended.
    Connection(Result<(), ConnectionError>),
    /// Whether the session is logged in.
    Logged(bool),
    /// How a login or a logout ended.
    Session(Result<(), SessionError>),
    /// Whether the internet could be reached.
    Reached(bool),
    /// The wait is over.
    Slept,
}

/// The mathematical value of an [`Answer`].
pub enum AnswerView {
    Active(Option<Seq<char>>),
    Connected(bool),
    Connection(Result<(), ConnectionErrorView>),
    Logged(bool),
    Session(Result<(), SessionErrorView>),
    Reached(bool),
    Slept,
}

impl View for Answer {
    type V = AnswerView;

    open spec fn view(&self) -> AnswerView {
        match self {
            Answer::Active(None) => AnswerView::Active(None),
            Answer::Active(Some(name)) => AnswerView::Active(Some(name@)),
            Answer::Connected(up) => AnswerView::Connected(*up),
            Answer::Connection(Ok(())) => AnswerView::Connection(Ok(())),
            Answer::Connection(Err(e)) => AnswerView::Connection(Err(e@)),
            Answer::Logged(logged) => AnswerView::Logged(*logged),
            Answer::Session(Ok(())) => AnswerView::Session(Ok(())),
            Answer::Session(Err(e)) => AnswerView::Session(Err(e@)),
            Answer::Reached(reached) => AnswerView::Reached(*reached),
            Answer::Slept => AnswerView::Slept,
        }
    }
}

impl CallView {
    /// Whether `answer` is of the kind that this call is answered with.
    pub open spec fn admits(self, answer: AnswerView) -> bool {
        match self {
            CallView::Active => answer is Active,
            CallView::IsConnected(_) => answer is Connected,
            CallView::Connect(_) | CallView::Disconnect(_) => answer is Connection,
            CallView::IsLogged => answer is Logged,
            CallView::Login | CallView::Logout => answer is Session,
            CallView::Probe => answer is Reached,
            CallView::Sleep(_) => answer is Slept,
        }
    }

    /// Whether the call changes which connections are up.
    pub open spec fn alters_network(self) -> bool {
        self is Connect || self is Disconnect
    }

    /// Whether the call is made on the session client.
    pub open spec fn on_session(self) -> bool {
        self is IsLogged || self is Login || self is Logout
    }

    /// Whether the call changes the state of the session.
    pub open spec fn alters_session(self) -> bool {
        self is Login || self is Logout
    }
}

impl Clone for Call {
    fn clone(&self) -> (copy: Self)
        ensures
            copy@ == self@,
    {
        match self {
            Call::Active => Call::Active,
            Call::IsConnected(name) => Call::IsConnected(name.clone()),
            Call::Connect(name) => Call::Connect(name.clone()),
            Call::Disconnect(name) => Call::Disconnect(name.clone()),
            Call::IsLogged => Call::IsLogged,
            Call::Login => Call::Login,
            Call::Logout => Call::Logout,
            Call::Probe => Call::Probe,
            Call::Sleep(seconds) => Call::Sleep(*seconds),
        }
    }
}

impl Call {
    /// Whether `answer` is of the kind that this call is answered with.
    pub fn admits(&self, answer: &Answer) -> (fits: bool)
        ensures
            fits == self@.admits(answer@),
    {
        match self {
            Call::Active => matches!(answer, Answer::Active(_)),
            Call::IsConnected(_) => matches!(answer, Answer::Connected(_)),
            Call::Connect(_) => matches!(answer, Answer::Connection(_)),
            Call::Disconnect(_) => matches!(answer, Answer::Connection(_)),
            Call::IsLogged => matches!(answer, Answer::Logged(_)),
            Call::Login => matches!(answer, Answer::Session(_)),
            Call::Logout => matches!(answer, Answer::Session(_)),
            Call::Probe => matches!(answer, Answer::Reached(_)),
            Call::Sleep(_) => matches!(answer, Answer::Slept),
        }
    }
}

} // verus!
