//! Tells a status bar what a media player plays.
//!
//! Players announce their state on the session bus, each announcement
//! holding either what is played or whether it is played, never both. This
//! library picks out the player that the user selected, by name or by glob
//! pattern, puts the two halves together into what is playing, and, where
//! the user asked for it, pauses the selected player while another one plays.
//!
//! The library does no input or output. [`engine`] takes a notification and
//! answers with the question to put to the bus or with the action to take;
//! the program around it talks to the bus and prints.
//!
//! - [`text`]: searching and replacing in texts.
//! - [`glob`]: glob patterns and the names of players.
//! - [`value`]: the values that messages on the bus carry.
//! - [`message`]: the contents of notifications and answers, and the rules
//!   for following a player and for pausing it.
//! - [`engine`]: the handling of a notification, step by step.
//! - [`metadata`], [`media`], [`escape`], [`output`]: what is playing, and
//!   the line for the bar.
//! - [`options`], [`args`]: the user's settings.

pub mod args;
pub mod engine;
pub mod escape;
pub mod glob;
pub mod media;
pub mod message;
pub mod metadata;
pub mod options;
pub mod output;
pub mod text;
pub mod value;
