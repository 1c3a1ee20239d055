pub mod error;
pub mod nmcli;

pub use error::Error;
pub use error::ErrorView;
pub use nmcli::Nmcli;
