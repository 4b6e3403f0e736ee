//! What is playing, as far as it is known, and the JSON line that shows it.

use crate::escape::{escape_special_characters, escaped};
use crate::output::{fill_format, now_playing};
use crate::text::opt_view;
use vstd::prelude::*;

verus! {

/// The error of `serde_json`.
#[verifier::external_type_specification]
#[verifier::external_body]
pub struct ExJsonError(serde_json::Error);

/// The text that `serde_json` writes for a JSON object with three members,
/// each a name and a text, or `None` where it refuses to write it.
pub uninterp spec fn json_object(
    first_name: Seq<char>,
    first_text: Seq<char>,
    second_name: Seq<char>,
    second_text: Seq<char>,
    third_name: Seq<char>,
    third_text: Seq<char>,
) -> Option<Seq<char>>;

/// `serde_json::to_string` on a `serde_json::Value` that is an object of
/// three members with text values. The result depends on the six texts alone;
/// nothing more is claimed of it.
#[verifier::external_body]
fn write_json_object(
    first_name: &str,
    first_text: &str,
    second_name: &str,
    second_text: &str,
    third_name: &str,
    third_text: &str,
) -> (r: Result<String, serde_json::Error>)
    ensures
        match r {
            Ok(text) => json_object(
                first_name@,
                first_text@,
                second_name@,
                second_text@,
                third_name@,
                third_text@,
            ) == Some(text@),
            Err(_) => json_object(
                first_name@,
                first_text@,
                second_name@,
                second_text@,
                third_name@,
                third_text@,
            ) is None,
        },
{
    let mut object = serde_json::Map::new();
    object.insert(first_name.to_string(), serde_json::Value::String(first_text.to_string()));
    object.insert(second_name.to_string(), serde_json::Value::String(second_text.to_string()));
    object.insert(third_name.to_string(), serde_json::Value::String(third_text.to_string()));
    serde_json::to_string(&serde_json::Value::Object(object))
}

/// What is playing. A part that is not known yet is `None`.
#[derive(Debug, Clone, PartialEq, Eq)]
pub struct Media {
    pub artist: Option<String>,
    pub title: Option<String>,
    pub playbackstatus: Option<String>,
}

pub struct MediaView {
    pub artist: Option<Seq<char>>,
    pub title: Option<Seq<char>>,
    pub playbackstatus: Option<Seq<char>>,
}

impl View for Media {
    type V = MediaView;

    open spec fn view(&self) -> MediaView {
        MediaView {
            artist: opt_view(self.artist),
            title: opt_view(self.title),
            playbackstatus: opt_view(self.playbackstatus),
        }
    }
}

/// The JSON line could not be written.
#[derive(Debug, Clone, Copy, PartialEq, Eq, Structural)]
pub struct SerializeError;

impl MediaView {
    /// Artist, title and playback status are all known.
    pub open spec fn is_complete(self) -> bool {
        self.artist is Some && self.title is Some && self.playbackstatus is Some
    }

    /// The line for the bar: nothing while a part is unknown; else the JSON
    /// object whose `text` is the filled format and whose `alt` and `class`
    /// are the playback status.
    pub open spec fn line(self, format: Seq<char>) -> Result<Option<Seq<char>>, SerializeError> {
        if self.is_complete() {
            match json_object(
                "text"@,
                now_playing(format, self.artist->0, self.title->0),
                "alt"@,
                self.playbackstatus->0,
                "class"@,
                self.playbackstatus->0,
            ) {
                Some(line) => Ok(Some(line)),
                None => Err(SerializeError),
            }
        } else {
            Ok(None)
        }
    }
}

impl Media {
    /// Constructs a new instance of media output.
    pub fn new(artist: Option<String>, title: Option<String>, playbackstatus: Option<String>) -> (r:
        Self)
        ensures
            r.artist == artist,
            r.title == title,
            r.playbackstatus == playbackstatus,
    {
        Media { artist, title, playbackstatus }
    }

    /// What is playing with every part known, as the engine hands it out:
    /// artist and title are escaped for JSON, the playback status is kept.
    pub fn complete(media: &crate::message::Media) -> (r: Self)
        ensures
            r@ == (MediaView {
                artist: Some(escaped(media.artist@)),
                title: Some(escaped(media.title@)),
                playbackstatus: Some(media.playbackstatus@),
            }),
            r@.is_complete(),
    {
        Media {
            artist: Some(escape_special_characters(media.artist.as_str())),
            title: Some(escape_special_characters(media.title.as_str())),
            playbackstatus: Some(media.playbackstatus.clone()),
        }
    }

    /// The line that tells the bar what is playing, in the user's format.
    /// There is none while a part is unknown.
    pub fn render(&self, output_format: &str) -> (r: Result<Option<String>, SerializeError>)
        ensures
            match self@.line(output_format@) {
                Ok(Some(line)) => r matches Ok(Some(text)) && text@ == line,
                Ok(None) => r == Ok::<Option<String>, SerializeError>(None),
                Err(e) => r == Err::<Option<String>, SerializeError>(e),
            },
    {
        match (&self.artist, &self.title, &self.playbackstatus) {
            (Some(artist), Some(title), Some(playbackstatus)) => {
                let text = fill_format(output_format, artist.as_str(), title.as_str());
                match write_json_object(
                    "text",
                    text.as_str(),
                    "alt",
                    playbackstatus.as_str(),
                    "class",
                    playbackstatus.as_str(),
                ) {
                    Ok(line) => Ok(Some(line)),
                    Err(_) => Err(SerializeError),
                }
            },
            _ => Ok(None),
        }
    }
}

} // verus!
