//! Command routing and audit-log rules of a chat bot, with machine-checked contracts.
//!
//! The crate holds the decisions: which text matches which command, what the
//! registry accepts, what each gateway event makes the bot do, and how log
//! entries are keyed, encoded and rendered. Network and storage calls belong to
//! the program around it.

pub mod commands;
pub mod error;
pub mod help;
pub mod model;
pub mod parse;
pub mod rikka;
pub mod text;

pub use error::CommandError;
pub use error::CommandResult;




pub use help::CommandHelp;
pub use help::HelpSection;
pub use rikka::Command;
pub use rikka::Rikka;
