use vstd::prelude::*;

verus! {

/// A failure reported by the network controller.
#[derive(Debug, PartialEq, Eq)]
pub enum Error {
    AlreadyActive,
    Unavailable,
    NoInternet,
    Custom(String),
}

/// The mathematical value of an [`Error`]: a custom message is a sequence of characters.
pub enum ErrorView {
    AlreadyActive,
    Unavailable,
    NoInternet,
    Custom(Seq<char>),
}

impl View for Error {
    type V = ErrorView;

    open spec fn view(&self) -> ErrorView {
        match self {
            Error::AlreadyActive => ErrorView::AlreadyActive,
            Error::Unavailable => ErrorView::Unavailable,
            Error::NoInternet => ErrorView::NoInternet,
            Error::Custom(msg) => ErrorView::Custom(msg@),
        }
    }
}

impl ErrorView {
    /// The text shown for the failure.
    pub open spec fn message(self) -> Seq<char> {
        match self {
            ErrorView::AlreadyActive => "Connection is already active"@,
            ErrorView::Unavailable => "Connection is unavailable"@,
            ErrorView::NoInternet => "No internet connection"@,
            ErrorView::Custom(msg) => msg,
        }
    }
}

impl Clone for Error {
    fn clone(&self) -> (copy: Self)
        ensures
            copy@ == self@,
    {
        match self {
            Error::AlreadyActive => Error::AlreadyActive,
            Error::Unavailable => Error::Unavailable,
            Error::NoInternet => Error::NoInternet,
            Error::Custom(msg) => Error::Custom(msg.clone()),
        }
    }
}

impl Error {
    /// The text shown for the failure; a custom failure shows its own message.
    pub fn to_string(&self) -> (text: String)
        ensures
            text@ == self@.message(),
    {
        match self {
            Error::AlreadyActive => "Connection is already active".to_owned(),
            Error::Unavailable => "Connection is unavailable".to_owned(),
            Error::NoInternet => "No internet connection".to_owned(),
            Error::Custom(msg) => msg.clone(),
        }
    }

    /// A custom failure that carries the given message, as for a failed command.
    pub fn custom(message: &str) -> (error: Self)
        ensures
            error@ == ErrorView::Custom(message@),
    {
        Error::Custom(message.to_owned())
    }
}

} // verus!
