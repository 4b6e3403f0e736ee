//! What the bus says and what to make of it: the contents of a player's
//! notification, the player that the user's selector picks, the other half
//! that a notification leaves out, and the command for the followed player
//! when another one starts or stops.
//!
//! Nothing here talks to the bus. Each function takes what the bus answered
//! as an argument and says what follows from it.

use crate::glob::{first_from, glob_match, glob_matches, namespace, player_name};
use crate::options::Arguments;
use crate::text::{
    begins_with, chars_of, copy_texts, equal, extend, holds_char, opt_view, same, starts_with,
    string_from, string_of, trim_start,
};
use crate::value::{
    field_of, find_field, Argument, ArgumentView, Field, FieldEntry, FieldEntryView, FieldView,
    Value, ValueView,
};
use vstd::prelude::*;

verus! {

/// What is playing: the first artist, the title, and the playback status as
/// the player words it.
#[derive(Debug, Clone, PartialEq, Eq)]
pub struct Media {
    pub artist: String,
    pub title: String,
    pub playbackstatus: String,
}

pub struct MediaView {
    pub artist: Seq<char>,
    pub title: Seq<char>,
    pub playbackstatus: Seq<char>,
}

impl View for Media {
    type V = MediaView;

    open spec fn view(&self) -> MediaView {
        MediaView {
            artist: self.artist@,
            title: self.title@,
            playbackstatus: self.playbackstatus@,
        }
    }
}

/// The state of a player.
#[derive(Debug, Clone, Copy, PartialEq, Eq, Structural)]
pub enum PlaybackState {
    Playing,
    Paused,
    Stopped,
    Unknown,
}

/// The state that a playback status names. Any status but the three known
/// ones is `Unknown`.
pub open spec fn state_of(status: Seq<char>) -> PlaybackState {
    if status == "Playing"@ {
        PlaybackState::Playing
    } else if status == "Paused"@ {
        PlaybackState::Paused
    } else if status == "Stopped"@ {
        PlaybackState::Stopped
    } else {
        PlaybackState::Unknown
    }
}

/// The state that a playback status names.
pub fn playback_state(status: &str) -> (r: PlaybackState)
    ensures
        r == state_of(status@),
{
    if equal(status, "Playing") {
        PlaybackState::Playing
    } else if equal(status, "Paused") {
        PlaybackState::Paused
    } else if equal(status, "Stopped") {
        PlaybackState::Stopped
    } else {
        PlaybackState::Unknown
    }
}

impl Media {
    /// The state of the player that this was read from.
    pub fn playback_state(&self) -> (r: PlaybackState)
        ensures
            r == state_of(self.playbackstatus@),
    {
        playback_state(self.playbackstatus.as_str())
    }
}

/// A change of the owner of a name, as the bus announces it: the name, its
/// owner before and its owner after. An empty owner stands for none.
#[derive(Debug, Clone, PartialEq, Eq)]
pub struct NameOwnerChanged {
    pub name: String,
    pub _old_name: String,
    pub new_name: String,
}

pub struct NameOwnerChangedView {
    pub name: Seq<char>,
    pub _old_name: Seq<char>,
    pub new_name: Seq<char>,
}

impl View for NameOwnerChanged {
    type V = NameOwnerChangedView;

    open spec fn view(&self) -> NameOwnerChangedView {
        NameOwnerChangedView {
            name: self.name@,
            _old_name: self._old_name@,
            new_name: self.new_name@,
        }
    }
}

/// What a player's notification, or its answer to a question, holds: its
/// playback status, or the artists and the title of what it plays.
#[derive(Debug, Clone, PartialEq, Eq)]
pub enum Contents {
    PlaybackStatus(String),
    Metadata { artist: Vec<String>, title: String },
}

pub enum ContentsView {
    PlaybackStatus(Seq<char>),
    Metadata { artist: Seq<Seq<char>>, title: Seq<char> },
}

impl View for Contents {
    type V = ContentsView;

    open spec fn view(&self) -> ContentsView {
        match self {
            Contents::PlaybackStatus(status) => ContentsView::PlaybackStatus(status@),
            Contents::Metadata { artist, title } => ContentsView::Metadata {
                artist: artist.deep_view(),
                title: title@,
            },
        }
    }
}

/// Why a message led to nothing. None of these ends the program: the
/// notification at hand is dropped and the next one is awaited.
#[derive(Debug, Clone, Copy, PartialEq, Eq, Structural)]
pub enum MessageError {
    /// A notification did not have the expected shape.
    Parsing,
    /// An answer did not hold the property in the expected shape.
    GetProperty,
    /// There was nobody to address the question to.
    MessageCreation,
    /// The bus did not answer, or the player was gone.
    MethodCall,
    /// No player on the bus is the one the user selected.
    NotFound,
}

/// What went wrong, in kind.
#[derive(Debug, Clone, Copy, PartialEq, Eq, Structural)]
pub enum Failure {
    /// The selector matches nothing right now. This is expected and
    /// frequent: there is then no player to follow for the time being.
    NotFound,
    /// A call on the bus got no answer in time, or the one it was for was
    /// gone. This is expected when a player closes.
    Unavailable,
    /// A message or an answer did not have the expected shape. This is
    /// worth a line in a log.
    Malformed,
}

impl MessageError {
    /// The kind of the error.
    pub open spec fn kind_of(self) -> Failure {
        match self {
            MessageError::Parsing => Failure::Malformed,
            MessageError::GetProperty => Failure::Malformed,
            MessageError::MessageCreation => Failure::Unavailable,
            MessageError::MethodCall => Failure::Unavailable,
            MessageError::NotFound => Failure::NotFound,
        }
    }

    /// The kind of the error.
    pub fn kind(&self) -> (r: Failure)
        ensures
            r == self.kind_of(),
    {
        match self {
            MessageError::Parsing => Failure::Malformed,
            MessageError::GetProperty => Failure::Malformed,
            MessageError::MessageCreation => Failure::Unavailable,
            MessageError::MethodCall => Failure::Unavailable,
            MessageError::NotFound => Failure::NotFound,
        }
    }

    /// The error in words.
    pub open spec fn text(self) -> Seq<char> {
        match self {
            MessageError::Parsing => "Failed to parse message."@,
            MessageError::GetProperty => "Failed to get property."@,
            MessageError::MessageCreation => "Failed to create a message with arguments."@,
            MessageError::MethodCall => "Failed to make a method call."@,
            MessageError::NotFound => "No matching mediaplayer found."@,
        }
    }

    /// The error in words.
    pub fn to_string(&self) -> (r: String)
        ensures
            r@ == self.text(),
    {
        match self {
            MessageError::Parsing => String::from_str("Failed to parse message."),
            MessageError::GetProperty => String::from_str("Failed to get property."),
            MessageError::MessageCreation => String::from_str(
                "Failed to create a message with arguments.",
            ),
            MessageError::MethodCall => String::from_str("Failed to make a method call."),
            MessageError::NotFound => String::from_str("No matching mediaplayer found."),
        }
    }
}

/// A result whose value is taken by its view.
pub open spec fn contents_view(r: Result<Contents, MessageError>) -> Result<
    ContentsView,
    MessageError,
> {
    match r {
        Ok(contents) => Ok(contents@),
        Err(e) => Err(e),
    }
}

/// A result whose text is taken by its view.
pub open spec fn text_view(r: Result<String, MessageError>) -> Result<Seq<char>, MessageError> {
    match r {
        Ok(text) => Ok(text@),
        Err(e) => Err(e),
    }
}

/// What the selector matches.
///
/// The empty selector matches every name. A selector with a `*` in it is a
/// glob pattern. Any other selector matches the name equal to it, letter for
/// letter.
pub open spec fn pattern_matches(pattern: Seq<char>, name: Seq<char>) -> bool {
    if pattern.len() == 0 {
        true
    } else if pattern.contains('*') {
        glob_matches(pattern, name)
    } else {
        pattern == name
    }
}

/// Whether the selector `mediaplayer` matches the player name `sender`.
pub fn matches_pattern(mediaplayer: &str, sender: &str) -> (r: bool)
    ensures
        r == pattern_matches(mediaplayer@, sender@),
{
    let pattern = chars_of(mediaplayer);
    let name = chars_of(sender);
    if pattern.len() == 0 {
        true
    } else if holds_char(&pattern, '*') {
        glob_match(&pattern, &name)
    } else {
        same(&pattern, &name)
    }
}

/// The empty selector matches every name.
pub proof fn lemma_empty_selector_matches_all(name: Seq<char>)
    ensures
        pattern_matches(Seq::<char>::empty(), name),
{
}

/// A bare `*` matches no name.
pub proof fn lemma_bare_wildcard_matches_nothing(name: Seq<char>)
    ensures
        !pattern_matches(seq!['*'], name),
{
    assert(seq!['*'][0] == '*');
}

/// Whether a name on the bus is a media player that the selector matches.
pub open spec fn selects(pattern: Seq<char>, bus_name: Seq<char>) -> bool {
    starts_with(bus_name, namespace()) && pattern_matches(pattern, player_name(bus_name))
}

/// The name to ask the bus the owner of: that of the first media player
/// among `names` that the selector matches, as the media player prefix
/// followed by the player's own name. Without such a player, `NotFound`.
pub open spec fn player_found(names: Seq<Seq<char>>, pattern: Seq<char>) -> Result<
    Seq<char>,
    MessageError,
> {
    match first_from(names, |name: Seq<char>| selects(pattern, name), 0) {
        Some(at) => Ok(namespace() + player_name(names[at])),
        None => Err(MessageError::NotFound),
    }
}

/// Makes the query for the id of the mediaplayer: picks the player that
/// `mediaplayer` selects among the names that the bus listed, and gives the
/// name whose owner is to be asked for.
///
/// Of several players that match, the first in the listing is taken. The
/// order of the listing is the bus's own and may differ from one listing to
/// the next. That no player matches is nothing out of the ordinary: there is
/// then no player to follow for the time being.
pub fn query_id(names: &Vec<String>, mediaplayer: &str) -> (r: Result<String, MessageError>)
    ensures
        text_view(r) == player_found(names.deep_view(), mediaplayer@),
{
    let prefix = chars_of("org.mpris.MediaPlayer2.");
    let ghost all = names.deep_view();
    let ghost hit = |name: Seq<char>| selects(mediaplayer@, name);
    let mut i: usize = 0;
    while i < names.len()
        invariant
            i <= names.len(),
            prefix@ == namespace(),
            all == names.deep_view(),
            hit == |name: Seq<char>| selects(mediaplayer@, name),
            first_from(all, hit, 0) == first_from(all, hit, i as int),
        decreases names.len() - i,
    {
        let name = chars_of(names[i].as_str());
        if begins_with(&name, &prefix) {
            let at = trim_start(&name, &prefix);
            let player = string_from(&name, at);
            if matches_pattern(mediaplayer, player.as_str()) {
                let mut full = chars_of("org.mpris.MediaPlayer2.");
                let own = chars_of(player.as_str());
                extend(&mut full, &own);
                return Ok(string_of(&full));
            }
        }
        i += 1;
    }
    Err(MessageError::NotFound)
}

/// The change of owner that a message announces, if its first three
/// arguments are texts.
pub open spec fn nameowner_read(args: Seq<ArgumentView>) -> Result<
    NameOwnerChangedView,
    MessageError,
> {
    if args.len() >= 3 {
        match (args[0], args[1], args[2]) {
            (
                ArgumentView::Text(name),
                ArgumentView::Text(old_name),
                ArgumentView::Text(new_name),
            ) => Ok(NameOwnerChangedView { name, _old_name: old_name, new_name }),
            _ => Err(MessageError::Parsing),
        }
    } else {
        Err(MessageError::Parsing)
    }
}

/// Unpacks a message that announces a change of the owner of a name.
pub fn read_nameowner(args: &Vec<Argument>) -> (r: Result<NameOwnerChanged, MessageError>)
    ensures
        match nameowner_read(args.deep_view()) {
            Ok(change) => r is Ok && r->Ok_0@ == change,
            Err(e) => r == Err::<NameOwnerChanged, MessageError>(e),
        },
{
    if args.len() < 3 {
        return Err(MessageError::Parsing);
    }
    match (&args[0], &args[1], &args[2]) {
        (Argument::Text(name), Argument::Text(old_name), Argument::Text(new_name)) => Ok(
            NameOwnerChanged {
                name: name.clone(),
                _old_name: old_name.clone(),
                new_name: new_name.clone(),
            },
        ),
        _ => Err(MessageError::Parsing),
    }
}

/// The text that a metadata dictionary holds under a key, if it holds a text
/// there.
pub open spec fn text_field(fields: Seq<FieldEntryView>, key: Seq<char>) -> Option<Seq<char>> {
    match field_of(fields, key) {
        Some(FieldView::Text(text)) => Some(text),
        _ => None,
    }
}

/// The list of texts that a metadata dictionary holds under a key, if it
/// holds such a list there.
pub open spec fn list_field(fields: Seq<FieldEntryView>, key: Seq<char>) -> Option<
    Seq<Seq<char>>,
> {
    match field_of(fields, key) {
        Some(FieldView::List(items)) => Some(items),
        _ => None,
    }
}

fn read_text_field(fields: &Vec<FieldEntry>, key: &str) -> (r: Option<String>)
    ensures
        opt_view(r) == text_field(fields.deep_view(), key@),
{
    match find_field(fields, key) {
        Some(Field::Text(text)) => Some(text.clone()),
        _ => None,
    }
}

fn read_list_field(fields: &Vec<FieldEntry>, key: &str) -> (r: Option<Vec<String>>)
    ensures
        match list_field(fields.deep_view(), key@) {
            Some(items) => r is Some && r->0.deep_view() == items,
            None => r is None,
        },
{
    match find_field(fields, key) {
        Some(Field::List(items)) => Some(copy_texts(items)),
        _ => None,
    }
}

/// What a notification of changed properties holds.
///
/// The message carries the name of an interface and the changed properties.
/// The first of these decides: under `Metadata`, a dictionary with a title
/// and a list of artists; under `PlaybackStatus`, a text. Anything else is
/// not understood.
pub open spec fn parsed(args: Seq<ArgumentView>) -> Result<ContentsView, MessageError> {
    if args.len() >= 2 && args[0] is Text && args[1] is Properties && args[1]->Properties_0.len()
        > 0 {
        let first = args[1]->Properties_0[0];
        if first.key == "Metadata"@ {
            match first.value {
                ValueView::Dict(fields) => match (
                    text_field(fields, "xesam:title"@),
                    list_field(fields, "xesam:artist"@),
                ) {
                    (Some(title), Some(artist)) => Ok(ContentsView::Metadata { artist, title }),
                    _ => Err(MessageError::Parsing),
                },
                _ => Err(MessageError::Parsing),
            }
        } else if first.key == "PlaybackStatus"@ {
            match first.value {
                ValueView::Text(status) => Ok(ContentsView::PlaybackStatus(status)),
                _ => Err(MessageError::Parsing),
            }
        } else {
            Err(MessageError::Parsing)
        }
    } else {
        Err(MessageError::Parsing)
    }
}

/// Parses a notification of changed properties and returns its contents.
pub fn parse_message(args: &Vec<Argument>) -> (r: Result<Contents, MessageError>)
    ensures
        contents_view(r) == parsed(args.deep_view()),
{
    if args.len() < 2 {
        return Err(MessageError::Parsing);
    }
    match (&args[0], &args[1]) {
        (Argument::Text(_), Argument::Properties(changed)) => {
            if changed.len() == 0 {
                return Err(MessageError::Parsing);
            }
            let first = &changed[0];
            if equal(first.key.as_str(), "Metadata") {
                match &first.value {
                    Value::Dict(fields) => {
                        let title = read_text_field(fields, "xesam:title");
                        let artist = read_list_field(fields, "xesam:artist");
                        match (title, artist) {
                            (Some(title), Some(artist)) => Ok(Contents::Metadata { artist, title }),
                            _ => Err(MessageError::Parsing),
                        }
                    },
                    _ => Err(MessageError::Parsing),
                }
            } else if equal(first.key.as_str(), "PlaybackStatus") {
                match &first.value {
                    Value::Text(status) => Ok(Contents::PlaybackStatus(status.clone())),
                    _ => Err(MessageError::Parsing),
                }
            } else {
                Err(MessageError::Parsing)
            }
        },
        _ => Err(MessageError::Parsing),
    }
}

/// What a player's answer says of the property that was asked for.
///
/// A playback status is a text. Metadata is a dictionary, of which the list
/// of artists and the title are read; one that is missing, or is of another
/// kind, is taken as empty. No other property is known.
pub open spec fn decoded(property: Seq<char>, value: ValueView) -> Result<
    ContentsView,
    MessageError,
> {
    if property == "PlaybackStatus"@ {
        match value {
            ValueView::Text(status) => Ok(ContentsView::PlaybackStatus(status)),
            _ => Err(MessageError::GetProperty),
        }
    } else if property == "Metadata"@ {
        match value {
            ValueView::Dict(fields) => Ok(
                ContentsView::Metadata {
                    artist: match list_field(fields, "xesam:artist"@) {
                        Some(artist) => artist,
                        None => Seq::empty(),
                    },
                    title: match text_field(fields, "xesam:title"@) {
                        Some(title) => title,
                        None => Seq::empty(),
                    },
                },
            ),
            _ => Err(MessageError::GetProperty),
        }
    } else {
        Err(MessageError::GetProperty)
    }
}

/// What asking a player for a property comes to: with nobody to ask,
/// `MessageCreation`; without an answer, `MethodCall`; else what the answer
/// says.
pub open spec fn property_read(
    busname: Option<Seq<char>>,
    property: Seq<char>,
    reply: Option<ValueView>,
) -> Result<ContentsView, MessageError> {
    match busname {
        None => Err(MessageError::MessageCreation),
        Some(_) => match reply {
            None => Err(MessageError::MethodCall),
            Some(value) => decoded(property, value),
        },
    }
}

/// Reads a property from the player's answer to the question for it.
///
/// `busname` is the player that was asked, `property` what it was asked
/// for, and `reply` its answer, or `None` where none came in time.
pub fn get_property(busname: Option<&str>, property: &str, reply: Option<&Value>) -> (r: Result<
    Contents,
    MessageError,
>)
    ensures
        contents_view(r) == property_read(
            match busname {
                Some(name) => Some(name@),
                None => None,
            },
            property@,
            match reply {
                Some(value) => Some(value@),
                None => None,
            },
        ),
{
    if busname.is_none() {
        return Err(MessageError::MessageCreation);
    }
    let value = match reply {
        Some(value) => value,
        None => {
            return Err(MessageError::MethodCall);
        },
    };
    if equal(property, "PlaybackStatus") {
        match value {
            Value::Text(status) => Ok(Contents::PlaybackStatus(status.clone())),
            _ => Err(MessageError::GetProperty),
        }
    } else if equal(property, "Metadata") {
        match value {
            Value::Dict(fields) => {
                let artist = match read_list_field(fields, "xesam:artist") {
                    Some(artist) => artist,
                    None => Vec::new(),
                };
                let title = match read_text_field(fields, "xesam:title") {
                    Some(title) => title,
                    None => String::new(),
                };
                assert(artist.deep_view() =~= match list_field(
                    fields.deep_view(),
                    "xesam:artist"@,
                ) {
                    Some(artist) => artist,
                    None => Seq::empty(),
                });
                Ok(Contents::Metadata { artist, title })
            },
            _ => Err(MessageError::GetProperty),
        }
    } else {
        Err(MessageError::GetProperty)
    }
}

/// Whether the sender of a message is the player that is followed.
///
/// With the empty selector every sender is. Else it is the sender whose
/// name is the owner that the bus gave for the selected player; a message
/// without a sender counts as sent by the empty name.
pub open spec fn is_followed(
    sender: Option<Seq<char>>,
    mediaplayer: Seq<char>,
    owner: Result<Seq<char>, MessageError>,
) -> bool {
    if mediaplayer.len() == 0 {
        true
    } else {
        match owner {
            Ok(id) => id == match sender {
                Some(name) => name,
                None => Seq::empty(),
            },
            Err(_) => false,
        }
    }
}

/// Checks if the sender of a message is the mediaplayer we are listening to.
/// `owner` is what the bus gave as the owner of the selected player.
pub fn is_mediaplayer(
    sender: Option<&str>,
    mediaplayer: &str,
    owner: &Result<String, MessageError>,
) -> (r: bool)
    ensures
        r == is_followed(
            match sender {
                Some(name) => Some(name@),
                None => None,
            },
            mediaplayer@,
            text_view(*owner),
        ),
{
    let selector = chars_of(mediaplayer);
    if selector.len() == 0 {
        return true;
    }
    let sender_id = match sender {
        Some(name) => chars_of(name),
        None => Vec::new(),
    };
    match owner {
        Ok(id) => {
            let mediaplayer_id = chars_of(id.as_str());
            same(&mediaplayer_id, &sender_id)
        },
        Err(_) => false,
    }
}

/// Checks if we should toggle the playback: the user asked for it and the
/// selected player has an owner.
pub fn should_toggle_playback(
    owner: &Result<String, MessageError>,
    properties_opts: &Arguments,
) -> (r: bool)
    ensures
        r == (properties_opts.autotoggle && owner is Ok),
{
    properties_opts.autotoggle && owner.is_ok()
}

/// A command for a player.
#[derive(Debug, Clone, Copy, PartialEq, Eq, Structural)]
pub enum Command {
    Play,
    Pause,
}

impl Command {
    /// The name of the method that the player offers for the command.
    pub open spec fn method(self) -> Seq<char> {
        match self {
            Command::Play => "Play"@,
            Command::Pause => "Pause"@,
        }
    }

    /// The name of the method that the player offers for the command.
    pub fn name(&self) -> (r: &'static str)
        ensures
            r@ == self.method(),
    {
        match self {
            Command::Play => "Play",
            Command::Pause => "Pause",
        }
    }
}

/// The command for the followed player when another player reports
/// `status`: it pauses while the other plays, and plays in every other case.
pub open spec fn command_for(status: Seq<char>) -> Command {
    if status == "Playing"@ {
        Command::Pause
    } else {
        Command::Play
    }
}

/// The command for the followed player when another player reports `status`.
pub fn opposite_command(status: &str) -> (r: Command)
    ensures
        r == command_for(status@),
{
    if equal(status, "Playing") {
        Command::Pause
    } else {
        Command::Play
    }
}

/// The command for the followed player after another player was asked for
/// its playback status: the command for the status where it told one, and
/// `Play` where it told none, be it that it did not answer or that its answer
/// holds no status.
pub open spec fn command_after(playbackstatus: Result<ContentsView, MessageError>) -> Command {
    match playbackstatus {
        Ok(ContentsView::PlaybackStatus(status)) => command_for(status),
        _ => Command::Play,
    }
}

/// The command for the followed player after another player was asked for
/// its playback status.
pub fn command_after_read(playbackstatus: &Result<Contents, MessageError>) -> (r: Command)
    ensures
        r == command_after(contents_view(*playbackstatus)),
{
    match playbackstatus {
        Ok(Contents::PlaybackStatus(status)) => opposite_command(status.as_str()),
        _ => Command::Play,
    }
}

/// The command that another player's notification asks for: that for the
/// status where the notification tells it; where the notification speaks of
/// metadata, that after asking the player for its status; and none where the
/// notification was not understood.
pub open spec fn command_needed(
    other_media: Result<ContentsView, MessageError>,
    playbackstatus: Result<ContentsView, MessageError>,
) -> Option<Command> {
    match other_media {
        Ok(ContentsView::PlaybackStatus(status)) => Some(command_for(status)),
        Ok(ContentsView::Metadata { .. }) => Some(command_after(playbackstatus)),
        Err(_) => None,
    }
}

/// What another player's notification asks of the followed player: nothing
/// where the notification was not understood or the followed player has no
/// owner, else the command, addressed to the owner. The followed player
/// pauses while the other one plays and plays in every other case, also
/// where the state of the other one could not be made out.
pub open spec fn toggle_needed(
    other_media: Result<ContentsView, MessageError>,
    playbackstatus: Result<ContentsView, MessageError>,
    mediaplayer: Result<Seq<char>, MessageError>,
) -> Option<(Seq<char>, Command)> {
    match command_needed(other_media, playbackstatus) {
        Some(command) => match mediaplayer {
            Ok(id) => Some((id, command)),
            Err(_) => None,
        },
        None => None,
    }
}

/// Toggles the playback of the followed player when another player sends a
/// notification: says which command goes to whom.
///
/// `other_media` is what the notification held, `playbackstatus` the other
/// player's answer to the question for its status, which counts only where
/// the notification spoke of metadata, and `mediaplayer` the owner of the
/// followed player.
pub fn toggle_playback_if_needed(
    other_media: &Result<Contents, MessageError>,
    playbackstatus: &Result<Contents, MessageError>,
    mediaplayer: &Result<String, MessageError>,
) -> (r: Option<(String, Command)>)
    ensures
        match (
            toggle_needed(
                contents_view(*other_media),
                contents_view(*playbackstatus),
                text_view(*mediaplayer),
            ),
            r,
        ) {
            (Some((id, command)), Some((to, sent))) => to@ == id && sent == command,
            (None, None) => true,
            _ => false,
        },
{
    let command = match other_media {
        Ok(Contents::PlaybackStatus(status)) => opposite_command(status.as_str()),
        Ok(Contents::Metadata { .. }) => command_after_read(playbackstatus),
        Err(_) => {
            return None;
        },
    };
    match mediaplayer {
        Ok(id) => Some((id.clone(), command)),
        Err(_) => None,
    }
}

/// The first artist of a list, or the empty name where the list is empty.
pub open spec fn first_artist(artist: Seq<Seq<char>>) -> Seq<char> {
    if artist.len() > 0 {
        artist[0]
    } else {
        Seq::empty()
    }
}

/// The property that a notification leaves out: the playback status where
/// it speaks of metadata, the metadata where it speaks of the status.
pub open spec fn other_half(contents: ContentsView) -> Seq<char> {
    match contents {
        ContentsView::Metadata { .. } => "PlaybackStatus"@,
        ContentsView::PlaybackStatus(_) => "Metadata"@,
    }
}

impl Contents {
    /// The property that these contents leave out.
    pub fn missing(&self) -> (r: &'static str)
        ensures
            r@ == other_half(self@),
    {
        match self {
            Contents::Metadata { .. } => "PlaybackStatus",
            Contents::PlaybackStatus(_) => "Metadata",
        }
    }
}

/// What is playing, from the two halves: the notification and the player's
/// answer to the question for the other half. Of several artists the first
/// counts. There is nothing where either is missing or both are of one kind.
pub open spec fn completed(
    contents: Result<ContentsView, MessageError>,
    fetched: Result<ContentsView, MessageError>,
) -> Option<MediaView> {
    match (contents, fetched) {
        (
            Ok(ContentsView::Metadata { artist, title }),
            Ok(ContentsView::PlaybackStatus(playbackstatus)),
        ) => Some(MediaView { artist: first_artist(artist), title, playbackstatus }),
        (
            Ok(ContentsView::PlaybackStatus(playbackstatus)),
            Ok(ContentsView::Metadata { artist, title }),
        ) => Some(MediaView { artist: first_artist(artist), title, playbackstatus }),
        _ => None,
    }
}

fn leading_artist(artist: &Vec<String>) -> (r: String)
    ensures
        r@ == first_artist(artist.deep_view()),
{
    if artist.len() > 0 {
        artist[0].clone()
    } else {
        String::new()
    }
}

/// Puts together what is playing from a notification of the followed player
/// and the player's answer to the question for what the notification left
/// out. Where either is missing there is nothing to show.
pub fn handle_valid_mediaplayer_signal(
    contents: Result<Contents, MessageError>,
    fetched: Result<Contents, MessageError>,
) -> (r: Option<Media>)
    ensures
        match completed(contents_view(contents), contents_view(fetched)) {
            Some(media) => r is Some && r->0@ == media,
            None => r is None,
        },
{
    match contents {
        Ok(Contents::Metadata { artist, title }) => match fetched {
            Ok(Contents::PlaybackStatus(playbackstatus)) => Some(
                Media { artist: leading_artist(&artist), title, playbackstatus },
            ),
            _ => None,
        },
        Ok(Contents::PlaybackStatus(playbackstatus)) => match fetched {
            Ok(Contents::Metadata { artist, title }) => Some(
                Media { artist: leading_artist(&artist), title, playbackstatus },
            ),
            _ => None,
        },
        Err(_) => None,
    }
}

/// Completing a notification of metadata with the status `Playing` gives
/// the first artist, the title and that status, whatever was completed
/// before: what is put together depends on the two halves alone.
pub proof fn lemma_completion_of_metadata(artist: Seq<Seq<char>>, title: Seq<char>)
    ensures
        completed(
            Ok(ContentsView::Metadata { artist, title }),
            decoded("PlaybackStatus"@, ValueView::Text("Playing"@)),
        ) == Some(MediaView { artist: first_artist(artist), title, playbackstatus: "Playing"@ }),
        state_of("Playing"@) == PlaybackState::Playing,
{
}

} // verus!
