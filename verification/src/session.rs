pub mod codec;
pub mod document;
pub mod error;
pub mod legacy;

pub use error::Error;
pub use error::ErrorView;
pub use legacy::Legacy;
