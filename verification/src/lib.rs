//! Encrypted direct messages for a chat server, without the I/O.
//!
//! Every decision of the program is taken here: which settings to use, which
//! request to send next, what to do with each answer, when to stop. The
//! caller performs the actions (HTTP, the OpenPGP engine, the terminal, the
//! credential store, the settings file) and reports what came of them.
//!
//! - [`session`]: a whole run, from the command line's options to the end.
//! - [`setup`]: asking for the settings and keeping them.
//! - [`loading`]: reading the settings back.
//! - [`pipeline`]: logging in, and delivering the message to each recipient.
//! - [`api`]: the requests to the server, and what is read from its answers.
//! - [`report`]: the text that is posted, and the confirmation that is shown.
//! - [`settings`] and [`error`]: the values that the others share.

pub mod api;
pub mod error;
pub mod loading;
pub mod pipeline;
pub mod report;
pub mod session;
pub mod settings;
pub mod setup;
