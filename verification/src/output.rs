//! The line that the status bar reads, made from what is playing and the
//! user's format.

use crate::message::Media;
use crate::text::{chars_of, extend, replace_all, replaced, string_of};
use vstd::prelude::*;

verus! {

/// The user's format with `{{artist}}` replaced by the artist and then
/// `{{title}}` by the title.
pub open spec fn now_playing(format: Seq<char>, artist: Seq<char>, title: Seq<char>) -> Seq<char> {
    replaced(replaced(format, "{{artist}}"@, artist), "{{title}}"@, title)
}

/// A text with every `&` written as `&amp;`.
pub open spec fn ampersand_escaped(text: Seq<char>) -> Seq<char> {
    replaced(text, "&"@, "&amp;"@)
}

/// The line for the bar: a JSON object with the text and, twice, the
/// playback status.
pub open spec fn bar_line(now_playing: Seq<char>, playbackstatus: Seq<char>) -> Seq<char> {
    "{\"text\": \""@ + now_playing + "\", \"alt\": \""@ + playbackstatus + "\", \"class\": \""@
        + playbackstatus + "\"}"@
}

/// Fills the user's format with an artist and a title.
pub fn fill_format(output_format: &str, artist: &str, title: &str) -> (r: String)
    ensures
        r@ == now_playing(output_format@, artist@, title@),
{
    let format = chars_of(output_format);
    let with_artist = replace_all(&format, &chars_of("{{artist}}"), &chars_of(artist));
    let with_title = replace_all(&with_artist, &chars_of("{{title}}"), &chars_of(title));
    string_of(&with_title)
}

/// What the bar is given: the text to show and the playback status.
#[derive(Debug, Clone, PartialEq, Eq)]
pub struct BarOutput {
    pub now_playing: String,
    pub playbackstatus: String,
}

pub struct BarOutputView {
    pub now_playing: Seq<char>,
    pub playbackstatus: Seq<char>,
}

impl View for BarOutput {
    type V = BarOutputView;

    open spec fn view(&self) -> BarOutputView {
        BarOutputView { now_playing: self.now_playing@, playbackstatus: self.playbackstatus@ }
    }
}

impl BarOutput {
    /// Creates the output according to the given format.
    pub fn new(media: Media, output_format: &str) -> (r: BarOutput)
        ensures
            r@ == (BarOutputView {
                now_playing: now_playing(output_format@, media.artist@, media.title@),
                playbackstatus: media.playbackstatus@,
            }),
    {
        let now_playing = fill_format(output_format, media.artist.as_str(), media.title.as_str());
        BarOutput { playbackstatus: media.playbackstatus, now_playing }
    }

    /// Replaces the ampersands in the text, which the bar does not take as
    /// they are.
    pub fn escape_ampersand(&mut self) -> (r: &mut Self)
        ensures
            r@ == (BarOutputView {
                now_playing: ampersand_escaped(old(self).now_playing@),
                playbackstatus: old(self).playbackstatus@,
            }),
            *final(self) == *final(r),
    {
        let text = chars_of(self.now_playing.as_str());
        let escaped = replace_all(&text, &chars_of("&"), &chars_of("&amp;"));
        self.now_playing = string_of(&escaped);
        self
    }

    /// The line to print for the bar.
    pub fn render(&self) -> (r: String)
        ensures
            r@ == bar_line(self.now_playing@, self.playbackstatus@),
    {
        let status = chars_of(self.playbackstatus.as_str());
        let mut line = chars_of("{\"text\": \"");
        extend(&mut line, &chars_of(self.now_playing.as_str()));
        extend(&mut line, &chars_of("\", \"alt\": \""));
        extend(&mut line, &status);
        extend(&mut line, &chars_of("\", \"class\": \""));
        extend(&mut line, &status);
        extend(&mut line, &chars_of("\"}"));
        string_of(&line)
    }
}

} // verus!
