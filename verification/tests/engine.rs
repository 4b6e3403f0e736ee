use lizzy::engine::{
    begin, ownership_event, property_event, replay, resume, Action, Goal, NotificationEvent,
    Pending, Reply, Request, Step, Trace,
};
use lizzy::message::{Command, Contents, Media, MessageError, NameOwnerChanged};
use lizzy::options::Arguments;
use lizzy::value::{Argument, Field, FieldEntry, Value, ValueEntry};

fn text(s: &str) -> String {
    s.to_string()
}

fn options(mediaplayer: &str, autotoggle: bool) -> Arguments {
    Arguments::new(None, Some(text(mediaplayer)), autotoggle)
}

fn names(list: &[&str]) -> Reply {
    Reply::Names(list.iter().map(|name| name.to_string()).collect())
}

fn owner(s: &str) -> Reply {
    Reply::Owner(text(s))
}

fn status_reply(s: &str) -> Reply {
    Reply::Property(Value::Text(text(s)))
}

fn metadata_reply(artist: &[&str], title: &str) -> Reply {
    Reply::Property(Value::Dict(vec![
        FieldEntry {
            key: text("xesam:artist"),
            value: Field::List(artist.iter().map(|name| name.to_string()).collect()),
        },
        FieldEntry {
            key: text("xesam:title"),
            value: Field::Text(text(title)),
        },
    ]))
}

fn metadata(artist: &[&str], title: &str) -> Contents {
    Contents::Metadata {
        artist: artist.iter().map(|name| name.to_string()).collect(),
        title: text(title),
    }
}

fn status(s: &str) -> Contents {
    Contents::PlaybackStatus(text(s))
}

fn notified(sender: &str, payload: Contents) -> NotificationEvent {
    NotificationEvent::PropertyChange {
        sender: text(sender),
        payload,
    }
}

fn owner_changed(name: &str, old: Option<&str>, new: Option<&str>) -> NotificationEvent {
    NotificationEvent::OwnershipChange {
        advertised_name: text(name),
        old_owner: old.map(text),
        new_owner: new.map(text),
    }
}

fn ask_property(owner: &str, property: &str) -> Request {
    Request::GetProperty {
        owner: text(owner),
        property: text(property),
    }
}

fn ask_owner(name: &str) -> Request {
    Request::GetNameOwner { name: text(name) }
}

fn send(owner: &str, command: Command) -> Action {
    Action::Send {
        owner: text(owner),
        command,
    }
}

fn done(action: Action) -> Step {
    Step::Done { action }
}

#[test]
fn followed_player_with_metadata_is_completed_and_shown() {
    let trace = replay(
        &options("spotify", false),
        notified(":1.50", metadata(&["Boards of Canada"], "Roygbiv")),
        &vec![
            names(&["org.freedesktop.DBus", ":1.50", "org.mpris.MediaPlayer2.spotify"]),
            owner(":1.50"),
            status_reply("Playing"),
        ],
    );
    assert_eq!(
        trace,
        Trace {
            requests: vec![
                Request::ListNames,
                ask_owner("org.mpris.MediaPlayer2.spotify"),
                ask_property(":1.50", "PlaybackStatus"),
            ],
            action: Some(Action::Emit(Media {
                artist: text("Boards of Canada"),
                title: text("Roygbiv"),
                playbackstatus: text("Playing"),
            })),
        }
    );
}

#[test]
fn appearing_player_that_plays_pauses_the_followed_one() {
    let trace = replay(
        &options("vlc*", true),
        owner_changed("firefox", None, Some(":1.99")),
        &vec![
            names(&["org.mpris.MediaPlayer2.firefox", "org.mpris.MediaPlayer2.vlc"]),
            owner(":1.10"),
            status_reply("Playing"),
        ],
    );
    assert_eq!(
        trace,
        Trace {
            requests: vec![
                Request::ListNames,
                ask_owner("org.mpris.MediaPlayer2.vlc"),
                ask_property(":1.99", "PlaybackStatus"),
            ],
            action: Some(send(":1.10", Command::Pause)),
        }
    );
}

#[test]
fn appearing_player_from_the_bus_pauses_the_followed_one() {
    let change = NameOwnerChanged {
        name: text("org.mpris.MediaPlayer2.firefox"),
        _old_name: text(""),
        new_name: text(":1.99"),
    };
    let event = ownership_event(&change).unwrap();
    assert_eq!(event, owner_changed("firefox", None, Some(":1.99")));
    let trace = replay(
        &options("vlc*", true),
        event,
        &vec![
            names(&["org.mpris.MediaPlayer2.vlc"]),
            owner(":1.10"),
            status_reply("Playing"),
        ],
    );
    assert_eq!(trace.action, Some(send(":1.10", Command::Pause)));
}

#[test]
fn appearing_player_that_does_not_play_lets_the_followed_one_play() {
    for other in ["Paused", "Stopped", "", "Buffering"] {
        let trace = replay(
            &options("vlc*", true),
            owner_changed("firefox", None, Some(":1.99")),
            &vec![
                names(&["org.mpris.MediaPlayer2.vlc"]),
                owner(":1.10"),
                status_reply(other),
            ],
        );
        assert_eq!(trace.action, Some(send(":1.10", Command::Play)));
    }
}

#[test]
fn appearing_player_without_status_lets_the_followed_one_play() {
    for reply in [
        Reply::Failed,
        Reply::Property(Value::Other),
        Reply::Property(Value::Dict(Vec::new())),
        owner(":1.1"),
    ] {
        let trace = replay(
            &options("vlc*", true),
            owner_changed("firefox", None, Some(":1.99")),
            &vec![names(&["org.mpris.MediaPlayer2.vlc"]), owner(":1.10"), reply],
        );
        assert_eq!(trace.action, Some(send(":1.10", Command::Play)));
        assert_eq!(trace.requests.len(), 3);
    }
}

#[test]
fn other_player_that_plays_pauses_the_followed_one() {
    let trace = replay(
        &options("spotify", true),
        notified(":1.77", status("Playing")),
        &vec![names(&["org.mpris.MediaPlayer2.spotify"]), owner(":1.50")],
    );
    assert_eq!(
        trace,
        Trace {
            requests: vec![
                Request::ListNames,
                ask_owner("org.mpris.MediaPlayer2.spotify"),
            ],
            action: Some(send(":1.50", Command::Pause)),
        }
    );
}

#[test]
fn other_player_that_stops_lets_the_followed_one_play() {
    for other in ["Paused", "Stopped", "Whatever"] {
        let trace = replay(
            &options("spotify", true),
            notified(":1.77", status(other)),
            &vec![names(&["org.mpris.MediaPlayer2.spotify"]), owner(":1.50")],
        );
        assert_eq!(trace.action, Some(send(":1.50", Command::Play)));
    }
}

#[test]
fn other_player_with_metadata_is_asked_for_its_status() {
    let trace = replay(
        &options("spotify", true),
        notified(":1.77", metadata(&["A"], "T")),
        &vec![
            names(&["org.mpris.MediaPlayer2.spotify"]),
            owner(":1.50"),
            status_reply("Playing"),
        ],
    );
    assert_eq!(
        trace,
        Trace {
            requests: vec![
                Request::ListNames,
                ask_owner("org.mpris.MediaPlayer2.spotify"),
                ask_property(":1.77", "PlaybackStatus"),
            ],
            action: Some(send(":1.50", Command::Pause)),
        }
    );
    let silent = replay(
        &options("spotify", true),
        notified(":1.77", metadata(&["A"], "T")),
        &vec![
            names(&["org.mpris.MediaPlayer2.spotify"]),
            owner(":1.50"),
            Reply::Failed,
        ],
    );
    assert_eq!(silent.action, Some(send(":1.50", Command::Play)));
    assert_eq!(
        silent.requests,
        vec![
            Request::ListNames,
            ask_owner("org.mpris.MediaPlayer2.spotify"),
            ask_property(":1.77", "PlaybackStatus"),
        ]
    );
}

#[test]
fn other_player_is_passed_over_without_autotoggle() {
    let trace = replay(
        &options("spotify", false),
        notified(":1.77", status("Playing")),
        &vec![names(&["org.mpris.MediaPlayer2.spotify"]), owner(":1.50")],
    );
    assert_eq!(trace.action, Some(Action::Nothing));
    assert_eq!(trace.requests.len(), 2);
}

#[test]
fn notification_is_dropped_when_no_player_is_selected() {
    for autotoggle in [false, true] {
        let trace = replay(
            &options("spotify", autotoggle),
            notified(":1.77", status("Playing")),
            &vec![names(&["org.mpris.MediaPlayer2.vlc", "spotify"])],
        );
        assert_eq!(
            trace,
            Trace {
                requests: vec![Request::ListNames],
                action: Some(Action::Dropped(MessageError::NotFound)),
            }
        );
    }
}

#[test]
fn notification_is_dropped_when_the_bus_does_not_answer() {
    let no_names = replay(
        &options("spotify", true),
        notified(":1.50", status("Playing")),
        &vec![Reply::Failed],
    );
    assert_eq!(
        no_names.action,
        Some(Action::Dropped(MessageError::MethodCall))
    );
    for autotoggle in [false, true] {
        let no_owner = replay(
            &options("spotify", autotoggle),
            notified(":1.50", status("Playing")),
            &vec![names(&["org.mpris.MediaPlayer2.spotify"]), Reply::Failed],
        );
        assert_eq!(
            no_owner.action,
            Some(Action::Dropped(MessageError::NotFound))
        );
        assert_eq!(no_owner.requests.len(), 2);
    }
}

#[test]
fn only_the_first_match_is_looked_up() {
    let trace = replay(
        &options("fire*", false),
        notified(":1.20", status("Playing")),
        &vec![
            names(&[
                "org.mpris.MediaPlayer2.firefox.instance_1_10",
                "org.mpris.MediaPlayer2.firefox.instance_1_20",
            ]),
            Reply::Failed,
        ],
    );
    assert_eq!(
        trace,
        Trace {
            requests: vec![
                Request::ListNames,
                ask_owner("org.mpris.MediaPlayer2.firefox.instance_1_10"),
            ],
            action: Some(Action::Dropped(MessageError::NotFound)),
        }
    );
}

#[test]
fn any_sender_is_followed_without_selector() {
    let trace = replay(
        &options("", false),
        notified(":1.33", status("Paused")),
        &vec![metadata_reply(&["A", "B"], "T")],
    );
    assert_eq!(
        trace,
        Trace {
            requests: vec![ask_property(":1.33", "Metadata")],
            action: Some(Action::Emit(Media {
                artist: text("A"),
                title: text("T"),
                playbackstatus: text("Paused"),
            })),
        }
    );
}

#[test]
fn followed_player_without_answer_shows_nothing() {
    for (reply, error) in [
        (Reply::Failed, MessageError::MethodCall),
        (Reply::Property(Value::Other), MessageError::GetProperty),
        (status_reply("Playing"), MessageError::GetProperty),
        (names(&[]), MessageError::MethodCall),
    ] {
        let trace = replay(
            &options("", false),
            notified(":1.33", status("Paused")),
            &vec![reply],
        );
        assert_eq!(trace.action, Some(Action::Dropped(error)));
    }
    let trace = replay(
        &options("", false),
        notified(":1.33", metadata(&["A"], "T")),
        &vec![metadata_reply(&["A"], "T")],
    );
    assert_eq!(
        trace.action,
        Some(Action::Dropped(MessageError::GetProperty))
    );
}

#[test]
fn followed_player_with_bare_metadata_is_shown_with_empty_parts() {
    let trace = replay(
        &options("", false),
        notified(":1.33", status("Playing")),
        &vec![Reply::Property(Value::Dict(Vec::new()))],
    );
    assert_eq!(
        trace.action,
        Some(Action::Emit(Media {
            artist: text(""),
            title: text(""),
            playbackstatus: text("Playing"),
        }))
    );
}

#[test]
fn exit_of_the_followed_player_clears() {
    for (selector, name) in [
        ("spotify", "spotify"),
        ("fire*", "firefox.instance_1_10"),
        ("*fox", "firefox"),
        ("*ref*", "firefox"),
    ] {
        let trace = replay(
            &options(selector, false),
            owner_changed(name, Some(":1.50"), None),
            &Vec::new(),
        );
        assert_eq!(
            trace,
            Trace {
                requests: Vec::new(),
                action: Some(Action::Clear),
            }
        );
    }
}

#[test]
fn exit_is_ignored_without_selector() {
    for autotoggle in [false, true] {
        let trace = replay(
            &options("", autotoggle),
            owner_changed("spotify", Some(":1.50"), None),
            &Vec::new(),
        );
        assert_eq!(
            trace,
            Trace {
                requests: Vec::new(),
                action: Some(Action::Nothing),
            }
        );
    }
}

#[test]
fn exit_of_another_player_is_ignored() {
    let step = begin(
        &options("spotify", true),
        owner_changed("vlc", Some(":1.50"), None),
    );
    assert_eq!(step, done(Action::Nothing));
}

#[test]
fn change_without_old_and_new_owner_is_ignored() {
    let step = begin(&options("spotify", true), owner_changed("spotify", None, None));
    assert_eq!(step, done(Action::Nothing));
}

#[test]
fn passing_of_a_name_is_ignored() {
    for name in ["spotify", "vlc"] {
        let step = begin(
            &options("spotify", true),
            owner_changed(name, Some(":1.50"), Some(":1.51")),
        );
        assert_eq!(step, done(Action::Nothing));
    }
}

#[test]
fn appearing_of_the_followed_player_is_ignored() {
    let step = begin(
        &options("spotify", true),
        owner_changed("spotify", None, Some(":1.50")),
    );
    assert_eq!(step, done(Action::Nothing));
}

#[test]
fn appearing_of_another_player_is_ignored_without_autotoggle() {
    let step = begin(
        &options("spotify", false),
        owner_changed("vlc", None, Some(":1.50")),
    );
    assert_eq!(step, done(Action::Nothing));
}

#[test]
fn appearing_player_is_ignored_when_nothing_is_followed() {
    let trace = replay(
        &options("spotify", true),
        owner_changed("vlc", None, Some(":1.99")),
        &vec![names(&["org.mpris.MediaPlayer2.vlc"])],
    );
    assert_eq!(
        trace,
        Trace {
            requests: vec![Request::ListNames],
            action: Some(Action::Dropped(MessageError::NotFound)),
        }
    );
    let gone = replay(
        &options("spotify", true),
        owner_changed("vlc", None, Some(":1.99")),
        &vec![names(&["org.mpris.MediaPlayer2.spotify"]), Reply::Failed],
    );
    assert_eq!(gone.action, Some(Action::Dropped(MessageError::NotFound)));
}

#[test]
fn steps_are_taken_one_by_one() {
    let opts = options("spotify", true);
    let first = begin(&opts, notified(":1.50", status("Paused")));
    let goal = Goal::Notified {
        sender: text(":1.50"),
        payload: status("Paused"),
    };
    assert_eq!(
        first,
        Step::Ask {
            request: Request::ListNames,
            pending: Pending::Listing { goal: goal.clone() },
        }
    );
    let second = resume(
        &opts,
        Pending::Listing { goal: goal.clone() },
        &names(&["org.mpris.MediaPlayer2.spotify"]),
    );
    assert_eq!(
        second,
        Step::Ask {
            request: ask_owner("org.mpris.MediaPlayer2.spotify"),
            pending: Pending::Locating { goal: goal.clone() },
        }
    );
    let third = resume(&opts, Pending::Locating { goal }, &owner(":1.50"));
    assert_eq!(
        third,
        Step::Ask {
            request: ask_property(":1.50", "Metadata"),
            pending: Pending::Completing {
                owner: text(":1.50"),
                known: status("Paused"),
            },
        }
    );
    let last = resume(
        &opts,
        Pending::Completing {
            owner: text(":1.50"),
            known: status("Paused"),
        },
        &metadata_reply(&["A"], "T"),
    );
    assert_eq!(
        last,
        done(Action::Emit(Media {
            artist: text("A"),
            title: text("T"),
            playbackstatus: text("Paused"),
        }))
    );
}

#[test]
fn probing_ends_with_a_command_for_the_followed_player() {
    let opts = options("spotify", true);
    let pending = Pending::Probing {
        other: text(":1.77"),
        followed: text(":1.50"),
    };
    assert_eq!(
        resume(&opts, pending.clone(), &status_reply("Playing")),
        done(send(":1.50", Command::Pause))
    );
    assert_eq!(
        resume(&opts, pending.clone(), &status_reply("Paused")),
        done(send(":1.50", Command::Play))
    );
    assert_eq!(
        resume(&opts, pending.clone(), &Reply::Failed),
        done(send(":1.50", Command::Play))
    );
    assert_eq!(
        resume(&opts, pending, &Reply::Property(Value::Other)),
        done(send(":1.50", Command::Play))
    );
}

#[test]
fn replay_stops_when_the_answers_run_out() {
    let trace = replay(
        &options("spotify", false),
        notified(":1.50", status("Playing")),
        &vec![names(&["org.mpris.MediaPlayer2.spotify"])],
    );
    assert_eq!(
        trace,
        Trace {
            requests: vec![
                Request::ListNames,
                ask_owner("org.mpris.MediaPlayer2.spotify"),
            ],
            action: None,
        }
    );
    let none = replay(
        &options("spotify", false),
        notified(":1.50", status("Playing")),
        &Vec::new(),
    );
    assert_eq!(
        none,
        Trace {
            requests: vec![Request::ListNames],
            action: None,
        }
    );
}

#[test]
fn replay_passes_over_answers_that_are_left() {
    let trace = replay(
        &options("spotify", false),
        owner_changed("spotify", Some(":1.50"), None),
        &vec![Reply::Failed, owner(":1.1")],
    );
    assert_eq!(trace.action, Some(Action::Clear));
    assert!(trace.requests.is_empty());
}

#[test]
fn change_of_owner_becomes_a_notification_for_media_players() {
    let left = NameOwnerChanged {
        name: text("org.mpris.MediaPlayer2.vlc"),
        _old_name: text(":1.10"),
        new_name: text(""),
    };
    assert_eq!(
        ownership_event(&left),
        Some(owner_changed("vlc", Some(":1.10"), None))
    );
    let passed = NameOwnerChanged {
        name: text("org.mpris.MediaPlayer2.firefox.instance_1_5"),
        _old_name: text(":1.10"),
        new_name: text(":1.11"),
    };
    assert_eq!(
        ownership_event(&passed),
        Some(owner_changed("firefox.instance_1_5", Some(":1.10"), Some(":1.11")))
    );
}

#[test]
fn change_of_owner_of_another_name_is_no_notification() {
    for name in ["org.freedesktop.Notifications", ":1.42", "", "org.mpris.MediaPlayer2"] {
        let change = NameOwnerChanged {
            name: text(name),
            _old_name: text(""),
            new_name: text(":1.42"),
        };
        assert_eq!(ownership_event(&change), None);
    }
    let unique = NameOwnerChanged {
        name: text(":org.mpris.MediaPlayer2.vlc"),
        _old_name: text(""),
        new_name: text(":1.42"),
    };
    assert_eq!(ownership_event(&unique), None);
}

#[test]
fn name_that_holds_the_prefix_further_in_is_kept_whole() {
    let change = NameOwnerChanged {
        name: text("com.example.org.mpris.MediaPlayer2.vlc"),
        _old_name: text(""),
        new_name: text(":1.42"),
    };
    assert_eq!(
        ownership_event(&change),
        Some(owner_changed(
            "com.example.org.mpris.MediaPlayer2.vlc",
            None,
            Some(":1.42")
        ))
    );
}

#[test]
fn message_of_changed_properties_becomes_a_notification() {
    let args = vec![
        Argument::Text(text("org.mpris.MediaPlayer2.Player")),
        Argument::Properties(vec![ValueEntry {
            key: text("PlaybackStatus"),
            value: Value::Text(text("Playing")),
        }]),
    ];
    assert_eq!(
        property_event(text(":1.50"), &args),
        Ok(notified(":1.50", status("Playing")))
    );
}

#[test]
fn message_that_is_not_understood_is_no_notification() {
    let args = vec![
        Argument::Text(text("org.mpris.MediaPlayer2.Player")),
        Argument::Properties(vec![ValueEntry {
            key: text("Volume"),
            value: Value::Other,
        }]),
    ];
    assert_eq!(
        property_event(text(":1.50"), &args),
        Err(MessageError::Parsing)
    );
    assert_eq!(
        property_event(text(":1.50"), &Vec::new()),
        Err(MessageError::Parsing)
    );
}
