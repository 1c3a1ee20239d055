use vstd::prelude::*;
use vstd::std_specs::convert::FromSpecImpl;
use crate::connections::Error as ConnectionError;
use crate::connections::ErrorView as ConnectionErrorView;
use crate::session::Error as SessionError;
use crate::session::ErrorView as SessionErrorView;

verus! {

/// The failure that ends a run: it comes from the network controller or from the session client
/// and is passed on unchanged.
#[derive(Debug, PartialEq, Eq)]
pub enum Error {
    Connection(ConnectionError),
    Session(SessionError),
}

/// The mathematical value of an [`Error`].
pub enum ErrorView {
    Connection(ConnectionErrorView),
    Session(SessionErrorView),
}

impl View for Error {
    type V = ErrorView;

    open spec fn view(&self) -> ErrorView {
        match self {
            Error::Connection(e) => ErrorView::Connection(e@),
            Error::Session(e) => ErrorView::Session(e@),
        }
    }
}

impl ErrorView {
    /// The text shown for the failure: that of the failure it wraps.
    pub open spec fn message(self) -> Seq<char> {
        match self {
            ErrorView::Connection(e) => e.message(),
            ErrorView::Session(e) => e.message(),
        }
    }
}

impl Clone for Error {
    fn clone(&self) -> (copy: Self)
        ensures
            copy@ == self@,
    {
        match self {
            Error::Connection(e) => Error::Connection(e.clone()),
            Error::Session(e) => Error::Session(e.clone()),
        }
    }
}

impl Error {
    /// The text shown for the failure: that of the failure it wraps.
    pub fn to_string(&self) -> (text: String)
        ensures
            text@ == self@.message(),
    {
        match self {
            Error::Connection(e) => e.to_string(),
            Error::Session(e) => e.to_string(),
        }
    }
}

impl From<ConnectionError> for Error {
    fn from(e: ConnectionError) -> (error: Self) {
        Error::Connection(e)
    }
}

impl FromSpecImpl<ConnectionError> for Error {
    open spec fn obeys_from_spec() -> bool {
        true
    }

    open spec fn from_spec(e: ConnectionError) -> Self {
        Error::Connection(e)
    }
}

impl From<SessionError> for Error {
    fn from(e: SessionError) -> (error: Self) {
        Error::Session(e)
    }
}

impl FromSpecImpl<SessionError> for Error {
    open spec fn obeys_from_spec() -> bool {
        true
    }

    open spec fn from_spec(e: SessionError) -> Self {
        Error::Session(e)
    }
}

} // verus!
