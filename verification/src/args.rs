//! Settings of the output that do not touch the choice of the player.

use vstd::prelude::*;

verus! {

/// How the output is cut and marked, and how the bar is told to read it.
#[derive(Debug, Clone, PartialEq, Eq)]
pub struct Args {
    /// Max length of the output before truncating.
    pub length: usize,
    /// Signal number used to update the bar.
    pub signal: u8,
    /// The indicator used when a song is playing.
    pub playing: String,
    /// The indicator used when a song is paused.
    pub notplaying: String,
}

pub struct ArgsView {
    pub length: usize,
    pub signal: u8,
    pub playing: Seq<char>,
    pub notplaying: Seq<char>,
}

impl View for Args {
    type V = ArgsView;

    open spec fn view(&self) -> ArgsView {
        ArgsView {
            length: self.length,
            signal: self.signal,
            playing: self.playing@,
            notplaying: self.notplaying@,
        }
    }
}

impl Default for Args {
    /// The settings of a user who gave none.
    fn default() -> (r: Args)
        ensures
            r@ == (ArgsView {
                length: 45,
                signal: 8,
                playing: "Playing:"@,
                notplaying: "Paused:"@,
            }),
    {
        Args {
            length: 45,
            signal: 8,
            playing: String::from_str("Playing:"),
            notplaying: String::from_str("Paused:"),
        }
    }
}

} // verus!
