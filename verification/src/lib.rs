//! An interactive polkit authentication agent, as a library of decisions.
//!
//! The agent sits between three parties: the authority, which calls back when
//! a request needs a credential; a privileged helper process, which holds the
//! PAM conversation; and a prompt surface, which asks the user. Everything
//! that waits (the bus, the helper's pipes, the prompt) belongs to the program
//! around this library. What the agent decides lives here, and is verified:
//! which account answers for a request, whether an attempt may start, what a
//! line of the helper means, and how a conversation proceeds and ends.

pub mod attempt;
pub mod driver;
pub mod error;
pub mod helper_line;
pub mod identity;
pub mod registration;
pub mod surface;
pub mod text;

pub use error::PolkitError;
pub use identity::Identity;
pub use registration::Subject;
