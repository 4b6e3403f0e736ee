//! Artist, title and playback status from a notification of changed
//! properties, filled up with what the player answered where the
//! notification left a property out. Artist and title are kept as the player
//! gave them; they are escaped only where a line for the bar is made.

use crate::media::{Media, MediaView};
use crate::message::MessageError;
use crate::text::opt_view;
use crate::value::{
    field_of, find_field, find_value, value_of, Field, FieldEntryView, FieldView, Value,
    ValueEntry, ValueEntryView, ValueView,
};
use vstd::prelude::*;

verus! {

/// The title of a metadata dictionary, as it is given: none where the
/// dictionary has no title, and an error where what stands under the title's
/// key is no text.
pub open spec fn title_read(fields: Seq<FieldEntryView>) -> Result<
    Option<Seq<char>>,
    MessageError,
> {
    match field_of(fields, "xesam:title"@) {
        None => Ok(None),
        Some(FieldView::Text(title)) => Ok(Some(title)),
        Some(_) => Err(MessageError::Parsing),
    }
}

/// The first artist of a metadata dictionary, as it is given: none where
/// the dictionary has no artists or an empty list of them, and an error
/// where what stands under the artists' key is no list of texts.
pub open spec fn artist_read(fields: Seq<FieldEntryView>) -> Result<
    Option<Seq<char>>,
    MessageError,
> {
    match field_of(fields, "xesam:artist"@) {
        None => Ok(None),
        Some(FieldView::List(artists)) => if artists.len() > 0 {
            Ok(Some(artists[0]))
        } else {
            Ok(None)
        },
        Some(_) => Err(MessageError::Parsing),
    }
}

/// Artist and title of a metadata value, which has to be a dictionary.
pub open spec fn unpacked(metadata: ValueView) -> Result<
    (Option<Seq<char>>, Option<Seq<char>>),
    MessageError,
> {
    match metadata {
        ValueView::Dict(fields) => match (artist_read(fields), title_read(fields)) {
            (Ok(artist), Ok(title)) => Ok((artist, title)),
            _ => Err(MessageError::Parsing),
        },
        _ => Err(MessageError::Parsing),
    }
}

/// A pair of optional texts taken by their views.
pub open spec fn pair_view(pair: (Option<String>, Option<String>)) -> (
    Option<Seq<char>>,
    Option<Seq<char>>,
) {
    (opt_view(pair.0), opt_view(pair.1))
}

/// Unpacks the artist and the title from the metadata of a player, each as
/// the player gave it. Of several artists the first counts.
pub fn unpack_metadata(metadata: &Value) -> (r: Result<
    (Option<String>, Option<String>),
    MessageError,
>)
    ensures
        match unpacked(metadata@) {
            Ok(pair) => r is Ok && pair_view(r->Ok_0) == pair,
            Err(e) => r == Err::<(Option<String>, Option<String>), MessageError>(e),
        },
{
    let fields = match metadata {
        Value::Dict(fields) => fields,
        _ => {
            return Err(MessageError::Parsing);
        },
    };
    let title: Option<String> = match find_field(fields, "xesam:title") {
        None => None,
        Some(Field::Text(title)) => Some(title.clone()),
        Some(_) => {
            return Err(MessageError::Parsing);
        },
    };
    let artist: Option<String> = match find_field(fields, "xesam:artist") {
        None => None,
        Some(Field::List(artists)) => {
            if artists.len() > 0 {
                Some(artists[0].clone())
            } else {
                None
            }
        },
        Some(_) => {
            return Err(MessageError::Parsing);
        },
    };
    Ok((artist, title))
}

/// The value of a property: the changed one where the notification holds
/// the property, else what the player answered when asked. Where the player
/// did not answer either, the call for the property has failed.
pub open spec fn property_value(
    changed: Seq<ValueEntryView>,
    property: Seq<char>,
    fetched: Option<ValueView>,
) -> Result<ValueView, MessageError> {
    match value_of(changed, property) {
        Some(value) => Ok(value),
        None => match fetched {
            Some(value) => Ok(value),
            None => Err(MessageError::MethodCall),
        },
    }
}

/// The playback status that a value holds, which has to be a text.
pub open spec fn status_read(value: ValueView) -> Result<Seq<char>, MessageError> {
    match value {
        ValueView::Text(status) => Ok(status),
        _ => Err(MessageError::Parsing),
    }
}

/// Artist and title from a notification and the player's answer: those of
/// the metadata, where there is one and it can be unpacked.
pub open spec fn metadata_parsed(
    changed: Seq<ValueEntryView>,
    fetched_metadata: Option<ValueView>,
) -> Result<(Option<Seq<char>>, Option<Seq<char>>), MessageError> {
    match property_value(changed, "Metadata"@, fetched_metadata) {
        Ok(value) => unpacked(value),
        Err(error) => Err(error),
    }
}

/// The playback status from a notification and the player's answer.
pub open spec fn status_parsed(
    changed: Seq<ValueEntryView>,
    fetched_status: Option<ValueView>,
) -> Result<Seq<char>, MessageError> {
    match property_value(changed, "PlaybackStatus"@, fetched_status) {
        Ok(value) => status_read(value),
        Err(error) => Err(error),
    }
}

/// What is playing, from a notification and the player's answers.
///
/// Each of the two properties is taken from the notification where it is
/// there, else from the player's answer. The result is `MethodCall` where a
/// property is in neither, and `Parsing` where one has not the expected
/// shape; the metadata is looked at first. On success the playback status is
/// known, and artist and title are as the metadata gives them.
pub open spec fn msg_args_parsed(
    changed: Seq<ValueEntryView>,
    fetched_metadata: Option<ValueView>,
    fetched_status: Option<ValueView>,
) -> Result<MediaView, MessageError> {
    match metadata_parsed(changed, fetched_metadata) {
        Ok(pair) => match status_parsed(changed, fetched_status) {
            Ok(playbackstatus) => Ok(
                MediaView { artist: pair.0, title: pair.1, playbackstatus: Some(playbackstatus) },
            ),
            Err(error) => Err(error),
        },
        Err(error) => Err(error),
    }
}

/// Whether a notification leaves a property out, so that the player has to
/// be asked for it.
pub fn is_missing(changed: &Vec<ValueEntry>, property: &str) -> (r: bool)
    ensures
        r == (value_of(changed.deep_view(), property@) is None),
{
    find_value(changed, property).is_none()
}

/// Parses the changed properties of a notification and puts together what
/// is playing.
///
/// A notification speaks of the metadata or of the playback status, never
/// of both. `fetched_metadata` and `fetched_status` are the player's answers
/// to the questions for the property that the notification left out, or
/// `None` where it was not asked or did not answer. Without the other half
/// there is nothing to put together: the result is then `MethodCall`, and
/// the notification is to be passed over.
pub fn parse_msg_args(
    changed: &Vec<ValueEntry>,
    fetched_metadata: Option<&Value>,
    fetched_status: Option<&Value>,
) -> (r: Result<Media, MessageError>)
    ensures
        match msg_args_parsed(
            changed.deep_view(),
            match fetched_metadata {
                Some(value) => Some(value@),
                None => None,
            },
            match fetched_status {
                Some(value) => Some(value@),
                None => None,
            },
        ) {
            Ok(media) => r is Ok && r->Ok_0@ == media,
            Err(e) => r == Err::<Media, MessageError>(e),
        },
{
    let metadata_value = match find_value(changed, "Metadata") {
        Some(value) => value,
        None => match fetched_metadata {
            Some(value) => value,
            None => {
                return Err(MessageError::MethodCall);
            },
        },
    };
    let (artist, title) = match unpack_metadata(metadata_value) {
        Ok(pair) => pair,
        Err(error) => {
            return Err(error);
        },
    };
    let status_value = match find_value(changed, "PlaybackStatus") {
        Some(value) => value,
        None => match fetched_status {
            Some(value) => value,
            None => {
                return Err(MessageError::MethodCall);
            },
        },
    };
    match status_value {
        Value::Text(status) => Ok(Media::new(artist, title, Some(status.clone()))),
        _ => Err(MessageError::Parsing),
    }
}

} // verus!
