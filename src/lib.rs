//! Decisions and reporting around one zero-knowledge proof verification:
//! the order of a run, the outcome of the verifier call, and the classification
//! of fault text into messages for the user.

pub mod text;
pub mod classify;
pub mod outcome;
pub mod session;

pub use classify::extract_error_message;
pub use outcome::Outcome;
pub use session::{LoadError, RunError, Stage, Event};
