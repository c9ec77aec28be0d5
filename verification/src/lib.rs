//! A guard for the console window that a windowed process allocates for itself.
//!
//! The guard never calls the operating system. It decides which call is due and
//! hands it out as a [`Request`]; the host performs the call and, where the call
//! has an answer that the guard reads, hands the answer back as a [`Reply`].

pub mod guard;
pub mod launch;
pub mod life;
pub mod request;

pub use crate::guard::ConsoleState;
pub use crate::launch::{Launch, Step};
pub use crate::request::{Reply, Request};
