//! The protocol core of a small mail-submission listener: the message record
//! that a dialogue builds, and the per-connection session state machine that
//! decides every reply, read and flush of that dialogue.
//!
//! The session performs no I/O itself. The caller asks it for its next
//! [`Action`], performs it against the connection, and hands back what the
//! connection delivered: a line that was read, or that a flush completed.

pub mod laws;
pub mod message;
pub mod session;
pub mod text;

pub use message::{Message, MessageModel};
pub use session::{Action, ActionModel, Config, SessionModel, Smtp, State};
