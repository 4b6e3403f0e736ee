//! Glob patterns for player names, and the choice of a player among the names
//! that the bus lists.
//!
//! Three forms of pattern are understood: `*text*` (the name holds `text`),
//! `text*` (the name begins with it) and `*text` (the name ends with it). In
//! each, `text` is not empty and holds no `*`. Every other pattern with a `*`
//! in it, a bare `*` included, matches no name.

use crate::text::{
    begins_with, chars_of, ends_with, finishes_with, found_in, holds_char, occurs_in, part,
    starts_with, string_from, trim_start, trimmed,
};
use vstd::prelude::*;

verus! {

/// What a glob pattern matches.
pub open spec fn glob_matches(pattern: Seq<char>, name: Seq<char>) -> bool {
    let n = pattern.len() as int;
    if n >= 3 && pattern[0] == '*' && pattern[n - 1] == '*' {
        let infix = pattern.subrange(1, n - 1);
        !infix.contains('*') && occurs_in(name, infix)
    } else if n >= 2 && pattern[n - 1] == '*' {
        let prefix = pattern.take(n - 1);
        !prefix.contains('*') && starts_with(name, prefix)
    } else if n >= 2 && pattern[0] == '*' {
        let suffix = pattern.skip(1);
        !suffix.contains('*') && ends_with(name, suffix)
    } else {
        false
    }
}

/// A text that can stand in a glob pattern: not empty, and without a `*`.
pub open spec fn is_plain(text: Seq<char>) -> bool {
    text.len() > 0 && !text.contains('*')
}

/// The pattern `text*` matches the names that begin with `text`.
pub proof fn lemma_prefix_glob(text: Seq<char>, name: Seq<char>)
    requires
        is_plain(text),
    ensures
        glob_matches(text + seq!['*'], name) == starts_with(name, text),
{
    let pattern = text + seq!['*'];
    assert(pattern.take(pattern.len() - 1) =~= text);
}

/// The pattern `*text` matches the names that end with `text`.
pub proof fn lemma_suffix_glob(text: Seq<char>, name: Seq<char>)
    requires
        is_plain(text),
    ensures
        glob_matches(seq!['*'] + text, name) == ends_with(name, text),
{
    let pattern = seq!['*'] + text;
    assert(pattern.skip(1) =~= text);
}

/// The pattern `*text*` matches the names that hold `text`.
pub proof fn lemma_infix_glob(text: Seq<char>, name: Seq<char>)
    requires
        is_plain(text),
    ensures
        glob_matches(seq!['*'] + text + seq!['*'], name) == occurs_in(name, text),
{
    let pattern = seq!['*'] + text + seq!['*'];
    assert(pattern.subrange(1, pattern.len() - 1) =~= text);
}

/// `pattern` is a glob in one of the three forms, with `text` in it.
pub open spec fn is_glob_of(pattern: Seq<char>, text: Seq<char>) -> bool {
    is_plain(text) && (pattern == seq!['*'] + text + seq!['*'] || pattern == text + seq!['*']
        || pattern == seq!['*'] + text)
}

/// A pattern that matches any name at all has one of the three forms.
pub proof fn lemma_glob_forms(pattern: Seq<char>, name: Seq<char>)
    requires
        glob_matches(pattern, name),
    ensures
        exists|text: Seq<char>| is_glob_of(pattern, text),
{
    let n = pattern.len() as int;
    if n >= 3 && pattern[0] == '*' && pattern[n - 1] == '*' {
        let text = pattern.subrange(1, n - 1);
        assert(pattern =~= seq!['*'] + text + seq!['*']);
        assert(is_glob_of(pattern, text));
    } else if n >= 2 && pattern[n - 1] == '*' {
        let text = pattern.take(n - 1);
        assert(pattern =~= text + seq!['*']);
        assert(is_glob_of(pattern, text));
    } else {
        let text = pattern.skip(1);
        assert(pattern =~= seq!['*'] + text);
        assert(is_glob_of(pattern, text));
    }
}

/// The prefix under which media players register their names on the bus.
pub open spec fn namespace() -> Seq<char> {
    "org.mpris.MediaPlayer2."@
}

/// A bus name without the media player prefix: the player's own name.
pub open spec fn player_name(bus_name: Seq<char>) -> Seq<char> {
    trimmed(bus_name, namespace())
}

/// The first position from `from` on at which `hit` holds, if there is one.
pub open spec fn first_from<A>(s: Seq<A>, hit: spec_fn(A) -> bool, from: int) -> Option<int>
    decreases s.len() - from,
{
    if from < 0 || from >= s.len() {
        None
    } else if hit(s[from]) {
        Some(from)
    } else {
        first_from(s, hit, from + 1)
    }
}

/// Where several positions qualify, the first one wins: what `first_from`
/// gives is a position at which `hit` holds and before which, from `from`
/// on, it holds nowhere; and it gives none only where `hit` holds nowhere
/// from `from` on.
pub proof fn lemma_first_from<A>(s: Seq<A>, hit: spec_fn(A) -> bool, from: int)
    requires
        0 <= from,
    ensures
        match first_from(s, hit, from) {
            Some(at) => {
                &&& from <= at < s.len()
                &&& hit(s[at])
                &&& forall|k: int| from <= k < at ==> !hit(#[trigger] s[k])
            },
            None => forall|k: int| from <= k < s.len() ==> !hit(#[trigger] s[k]),
        },
    decreases s.len() - from,
{
    if from < s.len() && !hit(s[from]) {
        lemma_first_from(s, hit, from + 1);
    }
}

/// A name on the bus: one that a program chose for itself, or the unique
/// name that the bus gave to a connection.
#[derive(Debug, Clone, PartialEq, Eq)]
pub enum BusName {
    WellKnown(String),
    Unique(String),
}

/// A bus name as plain text.
pub enum BusNameView {
    WellKnown(Seq<char>),
    Unique(Seq<char>),
}

impl View for BusName {
    type V = BusNameView;

    open spec fn view(&self) -> BusNameView {
        match self {
            BusName::WellKnown(name) => BusNameView::WellKnown(name@),
            BusName::Unique(name) => BusNameView::Unique(name@),
        }
    }
}

impl DeepView for BusName {
    type V = BusNameView;

    open spec fn deep_view(&self) -> BusNameView {
        self@
    }
}

impl BusName {
    /// The name as text, whichever kind it is.
    pub fn as_str(&self) -> (s: &str)
        ensures
            s@ == match self@ {
                BusNameView::WellKnown(name) => name,
                BusNameView::Unique(name) => name,
            },
    {
        match self {
            BusName::WellKnown(name) => name.as_str(),
            BusName::Unique(name) => name.as_str(),
        }
    }
}

/// Whether a bus name is a well-known one under the media player prefix
/// whose player name the glob matches.
pub open spec fn glob_selects(pattern: Seq<char>, name: BusNameView) -> bool {
    match name {
        BusNameView::WellKnown(text) => starts_with(text, namespace()) && glob_matches(
            pattern,
            player_name(text),
        ),
        BusNameView::Unique(_) => false,
    }
}

/// Position of the first name the glob selects.
pub open spec fn first_match(names: Seq<BusNameView>, pattern: Seq<char>) -> Option<int> {
    first_from(names, |name: BusNameView| glob_selects(pattern, name), 0)
}

/// Glob match on character vectors.
pub fn glob_match(pattern: &Vec<char>, name: &Vec<char>) -> (r: bool)
    ensures
        r == glob_matches(pattern@, name@),
{
    let n = pattern.len();
    if n >= 3 && pattern[0] == '*' && pattern[n - 1] == '*' {
        let infix = part(pattern, 1, n - 1);
        !holds_char(&infix, '*') && found_in(name, &infix)
    } else if n >= 2 && pattern[n - 1] == '*' {
        let prefix = part(pattern, 0, n - 1);
        !holds_char(&prefix, '*') && begins_with(name, &prefix)
    } else if n >= 2 && pattern[0] == '*' {
        let suffix = part(pattern, 1, n);
        !holds_char(&suffix, '*') && finishes_with(name, &suffix)
    } else {
        false
    }
}

/// Simple glob pattern match of a player name.
pub fn matches_glob_pattern(mediaplayer: &str, other: &str) -> (r: bool)
    ensures
        r == glob_matches(mediaplayer@, other@),
{
    let pattern = chars_of(mediaplayer);
    let name = chars_of(other);
    glob_match(&pattern, &name)
}

/// The player's own name: the bus name without the media player prefix.
pub fn strip_namespace(bus_name: &str) -> (r: String)
    ensures
        r@ == player_name(bus_name@),
{
    let name = chars_of(bus_name);
    let prefix = chars_of("org.mpris.MediaPlayer2.");
    let at = trim_start(&name, &prefix);
    string_from(&name, at)
}

/// The first name that matches the glob pattern: the first well-known name
/// in `all_names` that stands under the media player prefix and whose player
/// name `glob_pattern` matches, in the order in which the bus listed them.
/// That order is the bus's own and may differ from one listing to the next.
pub fn get_first_match(all_names: &Vec<BusName>, glob_pattern: &str) -> (r: Option<BusName>)
    ensures
        match first_match(all_names.deep_view(), glob_pattern@) {
            Some(i) => r is Some && r->0@ == all_names[i]@,
            None => r is None,
        },
{
    let pattern = chars_of(glob_pattern);
    let prefix = chars_of("org.mpris.MediaPlayer2.");
    let ghost names = all_names.deep_view();
    let ghost hit = |name: BusNameView| glob_selects(glob_pattern@, name);
    let mut i: usize = 0;
    while i < all_names.len()
        invariant
            i <= all_names.len(),
            pattern@ == glob_pattern@,
            prefix@ == namespace(),
            names == all_names.deep_view(),
            hit == |name: BusNameView| glob_selects(glob_pattern@, name),
            first_from(names, hit, 0) == first_from(names, hit, i as int),
        decreases all_names.len() - i,
    {
        match &all_names[i] {
            BusName::WellKnown(text) => {
                let name = chars_of(text.as_str());
                if begins_with(&name, &prefix) {
                    let at = trim_start(&name, &prefix);
                    let player = part(&name, at, name.len());
                    if glob_match(&pattern, &player) {
                        return Some(BusName::WellKnown(text.clone()));
                    }
                }
            },
            BusName::Unique(_) => {},
        }
        i += 1;
    }
    None
}

} // verus!
