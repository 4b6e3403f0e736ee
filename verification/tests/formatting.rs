use lizzy::args::Args;
use lizzy::media::Media;
use lizzy::metadata::{is_missing, parse_msg_args, unpack_metadata};
use lizzy::message::MessageError;
use lizzy::options::Arguments;
use lizzy::output::{fill_format, BarOutput};
use lizzy::text::{chars_of, found_in, replace_all, string_of};
use lizzy::value::{Field, FieldEntry, Value, ValueEntry};

fn text(s: &str) -> String {
    s.to_string()
}

fn some(s: &str) -> Option<String> {
    Some(s.to_string())
}

fn field(key: &str, value: Field) -> FieldEntry {
    FieldEntry { key: text(key), value }
}

fn artists(list: &[&str]) -> Field {
    Field::List(list.iter().map(|name| name.to_string()).collect())
}

fn entry(key: &str, value: Value) -> ValueEntry {
    ValueEntry { key: text(key), value }
}

fn replace(s: &str, from: &str, to: &str) -> String {
    string_of(&replace_all(&chars_of(s), &chars_of(from), &chars_of(to)))
}

#[test]
fn replacement_agrees_with_the_standard_one() {
    let cases = [
        ("{{artist}} - {{title}}", "{{artist}}", "A"),
        ("aaaa", "aa", "b"),
        ("aaa", "aa", "b"),
        ("abcabc", "bc", ""),
        ("abc", "abcd", "x"),
        ("", "a", "b"),
        ("a&b&&c", "&", "&amp;"),
        ("ababab", "ab", "ab"),
        ("xaxax", "axa", "-"),
        ("{{{{title}}}}", "{{title}}", "{{title}}"),
    ];
    for (s, from, to) in cases {
        assert_eq!(replace(s, from, to), s.replace(from, to));
    }
}

#[test]
fn empty_pattern_replaces_nothing() {
    assert_eq!(replace("abc", "", "x"), "abc");
    assert_eq!(replace("", "", "x"), "");
}

#[test]
fn search_finds_what_is_there() {
    assert!(found_in(&chars_of("xxabcxx"), &chars_of("abc")));
    assert!(found_in(&chars_of("abc"), &chars_of("")));
    assert!(found_in(&chars_of(""), &chars_of("")));
    assert!(!found_in(&chars_of("ab"), &chars_of("abc")));
    assert!(!found_in(&chars_of("abxc"), &chars_of("abc")));
}

#[test]
fn characters_and_strings_convert_both_ways() {
    for s in ["", "abc", "Sigur R\u{f3}s", "\u{1f600} ok"] {
        assert_eq!(string_of(&chars_of(s)), s);
        assert_eq!(chars_of(s), s.chars().collect::<Vec<char>>());
    }
}

#[test]
fn format_is_filled_with_artist_and_title() {
    assert_eq!(
        fill_format("{{artist}} - {{title}}", "Boards of Canada", "Roygbiv"),
        "Boards of Canada - Roygbiv"
    );
    assert_eq!(fill_format("{{title}}", "A", "T"), "T");
    assert_eq!(fill_format("plain", "A", "T"), "plain");
    assert_eq!(
        fill_format("{{title}} {{artist}} {{title}} {{artist}}", "A", "T"),
        "T A T A"
    );
}

#[test]
fn title_tag_in_the_artist_is_filled_too() {
    assert_eq!(
        fill_format("{{artist}} - {{title}}", "{{title}}", "T"),
        "T - T"
    );
    assert_eq!(
        fill_format("{{artist}} - {{title}}", "A", "{{artist}}"),
        "A - {{artist}}"
    );
}

#[test]
fn bar_output_is_made_from_media_and_format() {
    let media = lizzy::message::Media {
        artist: text("Boards of Canada"),
        title: text("Roygbiv"),
        playbackstatus: text("Playing"),
    };
    let output = BarOutput::new(media, "{{artist}} - {{title}}");
    assert_eq!(
        output,
        BarOutput {
            now_playing: text("Boards of Canada - Roygbiv"),
            playbackstatus: text("Playing"),
        }
    );
}

#[test]
fn ampersands_are_escaped() {
    let mut output = BarOutput {
        now_playing: text("Simon & Garfunkel - Mrs. Robinson && more"),
        playbackstatus: text("Playing & more"),
    };
    output.escape_ampersand();
    assert_eq!(
        output.now_playing,
        "Simon &amp; Garfunkel - Mrs. Robinson &amp;&amp; more"
    );
    assert_eq!(output.playbackstatus, "Playing & more");
}

#[test]
fn escaped_ampersands_are_escaped_again() {
    let mut output = BarOutput {
        now_playing: text("a &amp; b"),
        playbackstatus: text("Paused"),
    };
    output.escape_ampersand().escape_ampersand();
    assert_eq!(output.now_playing, "a &amp;amp;amp; b");
}

#[test]
fn bar_line_is_a_json_object() {
    let mut output = BarOutput {
        now_playing: text("Simon & Garfunkel - Cecilia"),
        playbackstatus: text("Paused"),
    };
    assert_eq!(
        output.escape_ampersand().render(),
        "{\"text\": \"Simon &amp; Garfunkel - Cecilia\", \"alt\": \"Paused\", \"class\": \"Paused\"}"
    );
    let empty = BarOutput {
        now_playing: text(""),
        playbackstatus: text(""),
    };
    assert_eq!(
        empty.render(),
        "{\"text\": \"\", \"alt\": \"\", \"class\": \"\"}"
    );
}

#[test]
fn media_keeps_what_it_is_given() {
    let media = Media::new(some("A"), None, some("Playing"));
    assert_eq!(media.artist, some("A"));
    assert_eq!(media.title, None);
    assert_eq!(media.playbackstatus, some("Playing"));
}

#[test]
fn complete_media_is_rendered_as_json() {
    let media = Media::new(some("Boards of Canada"), some("Roygbiv"), some("Playing"));
    assert_eq!(
        media.render("{{artist}} - {{title}}"),
        Ok(some(
            "{\"alt\":\"Playing\",\"class\":\"Playing\",\"text\":\"Boards of Canada - Roygbiv\"}"
        ))
    );
}

#[test]
fn rendered_json_escapes_what_json_asks_for() {
    let media = Media::new(some("Say \"hi\""), some("a\\b\n"), some("Paused"));
    let line = media.render("{{title}}|{{artist}}").unwrap().unwrap();
    assert_eq!(
        line,
        "{\"alt\":\"Paused\",\"class\":\"Paused\",\"text\":\"a\\\\b\\n|Say \\\"hi\\\"\"}"
    );
    let parsed: serde_json::Value = serde_json::from_str(&line).unwrap();
    assert_eq!(parsed["text"], "a\\b\n|Say \"hi\"");
    assert_eq!(parsed["alt"], "Paused");
    assert_eq!(parsed["class"], "Paused");
}

#[test]
fn incomplete_media_is_not_rendered() {
    let format = "{{artist}} - {{title}}";
    assert_eq!(Media::new(None, some("T"), some("Playing")).render(format), Ok(None));
    assert_eq!(Media::new(some("A"), None, some("Playing")).render(format), Ok(None));
    assert_eq!(Media::new(some("A"), some("T"), None).render(format), Ok(None));
    assert_eq!(Media::new(None, None, None).render(format), Ok(None));
}

#[test]
fn arguments_take_what_is_given() {
    let arguments = Arguments::new(some("{{title}}"), some("spotify"), true);
    assert_eq!(
        arguments,
        Arguments {
            format: text("{{title}}"),
            mediaplayer: text("spotify"),
            autotoggle: true,
            glob: false,
        }
    );
}

#[test]
fn arguments_default_to_any_player_and_the_usual_format() {
    let arguments = Arguments::new(None, None, false);
    assert_eq!(
        arguments,
        Arguments {
            format: text("{{artist}} - {{title}}"),
            mediaplayer: text(""),
            autotoggle: false,
            glob: false,
        }
    );
}

#[test]
fn arguments_with_a_wildcard_are_a_glob() {
    assert!(Arguments::new(None, some("fire*"), false).glob);
    assert!(Arguments::new(None, some("*"), false).glob);
    assert!(Arguments::new(None, some("a*b"), false).glob);
    assert!(!Arguments::new(None, some("firefox"), false).glob);
    assert!(!Arguments::new(None, some(""), false).glob);
}

#[test]
fn settings_have_their_defaults() {
    let args = Args::default();
    assert_eq!(
        args,
        Args {
            length: 45,
            signal: 8,
            playing: text("Playing:"),
            notplaying: text("Paused:"),
        }
    );
}

#[test]
fn metadata_is_unpacked_as_it_is_given() {
    let value = Value::Dict(vec![
        field("xesam:title", Field::Text(text("Say \"hi\""))),
        field("xesam:artist", artists(&["Boards of Canada", "Other"])),
    ]);
    assert_eq!(
        unpack_metadata(&value),
        Ok((some("Boards of Canada"), some("Say \"hi\"")))
    );
    let blank = Value::Dict(vec![
        field("xesam:title", Field::Text(text("\n"))),
        field("xesam:artist", artists(&[" "])),
    ]);
    assert_eq!(unpack_metadata(&blank), Ok((some(" "), some("\n"))));
}

#[test]
fn metadata_without_title_or_artist_is_unpacked_as_unknown() {
    assert_eq!(unpack_metadata(&Value::Dict(Vec::new())), Ok((None, None)));
    let no_artists = Value::Dict(vec![
        field("xesam:title", Field::Text(text("T"))),
        field("xesam:artist", artists(&[])),
    ]);
    assert_eq!(unpack_metadata(&no_artists), Ok((None, some("T"))));
    let no_title = Value::Dict(vec![field("xesam:artist", artists(&["A"]))]);
    assert_eq!(unpack_metadata(&no_title), Ok((some("A"), None)));
}

#[test]
fn metadata_of_another_shape_is_not_unpacked() {
    assert_eq!(
        unpack_metadata(&Value::Text(text("x"))),
        Err(MessageError::Parsing)
    );
    assert_eq!(unpack_metadata(&Value::Other), Err(MessageError::Parsing));
    let title_is_list = Value::Dict(vec![field("xesam:title", artists(&["T"]))]);
    assert_eq!(unpack_metadata(&title_is_list), Err(MessageError::Parsing));
    let artist_is_text = Value::Dict(vec![field("xesam:artist", Field::Text(text("A")))]);
    assert_eq!(unpack_metadata(&artist_is_text), Err(MessageError::Parsing));
    let artist_is_other = Value::Dict(vec![
        field("xesam:title", Field::Text(text("T"))),
        field("xesam:artist", Field::Other),
    ]);
    assert_eq!(unpack_metadata(&artist_is_other), Err(MessageError::Parsing));
}

#[test]
fn changed_metadata_is_filled_up_with_the_fetched_status() {
    let changed = vec![entry(
        "Metadata",
        Value::Dict(vec![
            field("xesam:title", Field::Text(text("Roygbiv"))),
            field("xesam:artist", artists(&["Boards of Canada", "Other"])),
        ]),
    )];
    assert!(!is_missing(&changed, "Metadata"));
    assert!(is_missing(&changed, "PlaybackStatus"));
    let fetched = Value::Text(text("Playing"));
    let expected = Media::new(some("Boards of Canada"), some("Roygbiv"), some("Playing"));
    for _ in 0..3 {
        assert_eq!(
            parse_msg_args(&changed, None, Some(&fetched)),
            Ok(expected.clone())
        );
    }
}

#[test]
fn changed_status_is_filled_up_with_the_fetched_metadata() {
    let changed = vec![entry("PlaybackStatus", Value::Text(text("Paused")))];
    let fetched = Value::Dict(vec![
        field("xesam:title", Field::Text(text("T"))),
        field("xesam:artist", artists(&["A"])),
    ]);
    assert_eq!(
        parse_msg_args(&changed, Some(&fetched), None),
        Ok(Media::new(some("A"), some("T"), some("Paused")))
    );
}

#[test]
fn nothing_is_put_together_without_the_other_half() {
    let metadata = vec![entry(
        "Metadata",
        Value::Dict(vec![
            field("xesam:title", Field::Text(text("T"))),
            field("xesam:artist", artists(&["A"])),
        ]),
    )];
    assert_eq!(
        parse_msg_args(&metadata, None, None),
        Err(MessageError::MethodCall)
    );
    let status = vec![entry("PlaybackStatus", Value::Text(text("Paused")))];
    assert_eq!(
        parse_msg_args(&status, None, None),
        Err(MessageError::MethodCall)
    );
    let fetched = Value::Text(text("Playing"));
    assert_eq!(
        parse_msg_args(&status, None, Some(&fetched)),
        Err(MessageError::MethodCall)
    );
    assert_eq!(
        parse_msg_args(&Vec::new(), None, None),
        Err(MessageError::MethodCall)
    );
}

#[test]
fn missing_title_or_artist_stays_unknown() {
    let changed = vec![entry("PlaybackStatus", Value::Text(text("Paused")))];
    let bare = Value::Dict(Vec::new());
    assert_eq!(
        parse_msg_args(&changed, Some(&bare), None),
        Ok(Media::new(None, None, some("Paused")))
    );
}

#[test]
fn changed_property_counts_before_the_fetched_one() {
    let changed = vec![entry("PlaybackStatus", Value::Text(text("Paused")))];
    let metadata = Value::Dict(vec![field("xesam:title", Field::Text(text("T")))]);
    let fetched = Value::Text(text("Playing"));
    assert_eq!(
        parse_msg_args(&changed, Some(&metadata), Some(&fetched)),
        Ok(Media::new(None, some("T"), some("Paused")))
    );
}

#[test]
fn properties_of_another_shape_are_not_parsed() {
    let metadata = Value::Dict(Vec::new());
    let wrong_status = vec![entry("PlaybackStatus", Value::Other)];
    assert_eq!(
        parse_msg_args(&wrong_status, Some(&metadata), None),
        Err(MessageError::Parsing)
    );
    let wrong_metadata = vec![entry("Metadata", Value::Text(text("x")))];
    assert_eq!(
        parse_msg_args(&wrong_metadata, None, None),
        Err(MessageError::Parsing)
    );
    assert_eq!(
        parse_msg_args(&Vec::new(), Some(&metadata), Some(&metadata)),
        Err(MessageError::Parsing)
    );
}
