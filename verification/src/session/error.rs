use vstd::prelude::*;

verus! {

/// A failure reported by the portal session client.
#[derive(Debug, PartialEq, Eq)]
pub enum Error {
    CredentialsMismatch,
    InvalidIp,
    InvalidEmail,
    InvalidPassword,
    NetworkUnreachable,
    AlreadyLoggedIn,
    Custom(String),
}

/// The mathematical value of an [`Error`]: a custom message is a sequence of characters.
pub enum ErrorView {
    CredentialsMismatch,
    InvalidIp,
    InvalidEmail,
    InvalidPassword,
    NetworkUnreachable,
    AlreadyLoggedIn,
    Custom(Seq<char>),
}

impl View for Error {
    type V = ErrorView;

    open spec fn view(&self) -> ErrorView {
        match self {
            Error::CredentialsMismatch => ErrorView::CredentialsMismatch,
            Error::InvalidIp => ErrorView::InvalidIp,
            Error::InvalidEmail => ErrorView::InvalidEmail,
            Error::InvalidPassword => ErrorView::InvalidPassword,
            Error::NetworkUnreachable => ErrorView::NetworkUnreachable,
            Error::AlreadyLoggedIn => ErrorView::AlreadyLoggedIn,
            Error::Custom(msg) => ErrorView::Custom(msg@),
        }
    }
}

impl ErrorView {
    /// The text shown for the failure.
    pub open spec fn message(self) -> Seq<char> {
        match self {
            ErrorView::CredentialsMismatch => "Credentials do not match."@,
            ErrorView::InvalidIp => "Invalid IP address."@,
            ErrorView::InvalidEmail => "Invalid email address."@,
            ErrorView::InvalidPassword => "Invalid password."@,
            ErrorView::NetworkUnreachable => "Network is unreachable."@,
            ErrorView::AlreadyLoggedIn => "User is already logged in."@,
            ErrorView::Custom(msg) => "Custom error: "@ + msg,
        }
    }
}

impl Clone for Error {
    fn clone(&self) -> (copy: Self)
        ensures
            copy@ == self@,
    {
        match self {
            Error::CredentialsMismatch => Error::CredentialsMismatch,
            Error::InvalidIp => Error::InvalidIp,
            Error::InvalidEmail => Error::InvalidEmail,
            Error::InvalidPassword => Error::InvalidPassword,
            Error::NetworkUnreachable => Error::NetworkUnreachable,
            Error::AlreadyLoggedIn => Error::AlreadyLoggedIn,
            Error::Custom(msg) => Error::Custom(msg.clone()),
        }
    }
}

impl Error {
    /// A custom failure that carries the given message.
    pub fn custom(message: &str) -> (error: Self)
        ensures
            error@ == ErrorView::Custom(message@),
    {
        Error::Custom(message.to_owned())
    }

    /// The text shown for the failure; a custom failure shows its message behind a fixed
    /// prefix.
    pub fn to_string(&self) -> (text: String)
        ensures
            text@ == self@.message(),
    {
        match self {
            Error::CredentialsMismatch => "Credentials do not match.".to_owned(),
            Error::InvalidIp => "Invalid IP address.".to_owned(),
            Error::InvalidEmail => "Invalid email address.".to_owned(),
            Error::InvalidPassword => "Invalid password.".to_owned(),
            Error::NetworkUnreachable => "Network is unreachable.".to_owned(),
            Error::AlreadyLoggedIn => "User is already logged in.".to_owned(),
            Error::Custom(msg) => {
                let mut text = "Custom error: ".to_owned();
                text.append(msg.as_str());
                text
            },
        }
    }
}

} // verus!
