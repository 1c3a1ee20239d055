pub mod continuous;
pub mod error;
pub mod laws;
pub mod oneshot;
pub mod protocol;
pub mod reachability;
pub mod reconnect;
pub mod selector;

pub use continuous::Continuous;
pub use error::Error;
pub use error::ErrorView;
pub use oneshot::Oneshot;
pub use protocol::Answer;
pub use protocol::AnswerView;
pub use protocol::Call;
pub use protocol::CallView;
pub use reachability::Reachability;
pub use reconnect::Reconnect;
pub use selector::Executor;
