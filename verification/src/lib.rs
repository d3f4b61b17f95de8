//! Request and stream lifecycle rules of a small greeting service, with
//! machine-checked contracts.

pub mod clock;
pub mod config;
pub mod error;
pub mod greeting;
pub mod interval;
pub mod services;
pub mod shutdown;
pub mod snapshot;
pub mod text;
pub mod utils;

pub use greeting::{GreetingMessage, PersonName};
pub use interval::StreamInterval;
pub use snapshot::TimeSnapshot;
