//! Decides whether a deferrable task may run now, from a grid-load signal
//! looked up by postcode, and keeps the bookkeeping that lets a host supply
//! the lookup across a foreign boundary.
pub mod boundary;
pub mod engine;
pub mod error;
pub mod json;
pub mod lifecycle;
pub mod postcode;
pub mod record;

pub use engine::{DataHolder, Lib};
pub use error::MyError;
pub use postcode::Postcode;
pub use record::{decide, CurrentState};
