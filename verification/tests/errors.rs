use meo_wifi::connections::Error as ConnectionError;
use meo_wifi::executor::Error;
use meo_wifi::session::Error as SessionError;

#[test]
fn failures_are_passed_on_unchanged() {
    assert_eq!(Error::from(ConnectionError::Unavailable), Error::Connection(ConnectionError::Unavailable));
    assert_eq!(Error::from(SessionError::InvalidIp), Error::Session(SessionError::InvalidIp));
    let converted: Error = ConnectionError::Custom("x".to_string()).into();
    assert_eq!(converted, Error::Connection(ConnectionError::Custom("x".to_string())));
}

#[test]
fn failure_shows_the_text_of_what_it_wraps() {
    assert_eq!(
        Error::Connection(ConnectionError::AlreadyActive).to_string(),
        "Connection is already active"
    );
    assert_eq!(Error::Session(SessionError::InvalidEmail).to_string(), "Invalid email address.");
    assert_eq!(
        Error::Session(SessionError::Custom("why".to_string())).to_string(),
        "Custom error: why"
    );
    let failure = Error::Connection(ConnectionError::NoInternet);
    assert_eq!(failure.clone(), failure);
}
