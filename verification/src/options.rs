//! What the user asked for: the output format, the player to follow, and
//! whether other players pause and resume it.

use crate::text::{chars_of, holds_char};
use vstd::prelude::*;

verus! {

/// The user's arguments. They are made once, at startup, and do not change.
#[derive(Debug, Clone, PartialEq, Eq)]
pub struct Arguments {
    /// The output format, with the tags `{{artist}}` and `{{title}}`.
    pub format: String,
    /// The player to follow: a name, a glob pattern, or nothing for any player.
    pub mediaplayer: String,
    /// Whether another player that starts pauses the followed one, and one
    /// that stops lets it play again.
    pub autotoggle: bool,
    /// Whether `mediaplayer` is a glob pattern.
    pub glob: bool,
}

pub struct ArgumentsView {
    pub format: Seq<char>,
    pub mediaplayer: Seq<char>,
    pub autotoggle: bool,
    pub glob: bool,
}

impl View for Arguments {
    type V = ArgumentsView;

    open spec fn view(&self) -> ArgumentsView {
        ArgumentsView {
            format: self.format@,
            mediaplayer: self.mediaplayer@,
            autotoggle: self.autotoggle,
            glob: self.glob,
        }
    }
}

/// The format used where the user gave none.
pub open spec fn default_format() -> Seq<char> {
    "{{artist}} - {{title}}"@
}

impl Arguments {
    /// `glob` says whether the player's name holds a `*`.
    pub open spec fn wf(&self) -> bool {
        self.glob == self.mediaplayer@.contains('*')
    }

    /// The arguments from what the command line held: a missing format is the
    /// default one, a missing player is the empty name, and the name is a
    /// glob when it holds a `*`.
    pub fn new(format: Option<String>, mediaplayer: Option<String>, autotoggle: bool) -> (r:
        Arguments)
        ensures
            r.wf(),
            r.format@ == match format {
                Some(given) => given@,
                None => default_format(),
            },
            r.mediaplayer@ == match mediaplayer {
                Some(given) => given@,
                None => Seq::<char>::empty(),
            },
            r.autotoggle == autotoggle,
    {
        let mediaplayer = match mediaplayer {
            Some(given) => given,
            None => String::new(),
        };
        let name = chars_of(mediaplayer.as_str());
        let glob = holds_char(&name, '*');
        let format = match format {
            Some(given) => given,
            None => String::from_str("{{artist}} - {{title}}"),
        };
        Arguments { format, mediaplayer, autotoggle, glob }
    }
}

} // verus!
