//! Verified core of a chat bot that turns a slash command into a
//! text-to-image request and replies with the generated picture.

pub mod error;
pub mod options;
pub mod request;
pub mod codec;
pub mod generation;
pub mod reaction;
pub mod reply;
pub mod pipeline;
