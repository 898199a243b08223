//! Sending a message through one of several interchangeable mail accounts,
//! after piping its body through a chain of filter programs.
//!
//! The crate holds the decisions: which account is tried next, what a failed
//! attempt leads to, how a message is put together, which keys a message is
//! encrypted to, how a chain of filters is wired and how its outcome is
//! judged. Sockets, files and child processes belong to the caller, which
//! performs each action the crate asks for and reports what came of it.

pub mod config;
pub mod delivery;
pub mod filter;
pub mod message;
pub mod pgp;
pub mod rand;
pub mod text;

pub use crate::config::system_config_path;
pub use crate::config::Account;
pub use crate::config::Config;
pub use crate::config::EmailOpts;
pub use crate::config::SmtpMode;
