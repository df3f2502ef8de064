//! Terminal-assistant core: extraction of shell commands from fenced code
//! blocks in a model reply, advisory safety classification, terminal
//! formatting of replies, the confirmation gate in front of command
//! execution, and the interactive session's control logic.

pub mod api_client;
pub mod config_manager;
pub mod error;
pub mod gate;
pub mod personalization;
pub mod safety;
pub mod session;
pub mod text;
pub mod util;

pub use api_client::Message;
pub use config_manager::Config;
pub use error::AppError;
pub use session::ReaderMode;
