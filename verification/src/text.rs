//! Text as sequences of characters: what it means for one text to stand in
//! another, and the searches and replacements the rest of the crate is built on.
//!
//! Contracts speak of `Seq<char>`, the view of `str` and `String`. The
//! executable functions work on `Vec<char>` so that a position is reached in
//! constant time.

use vstd::prelude::*;

verus! {

/// `String::push` of the standard library: the character is appended at the
/// end and nothing else changes.
pub assume_specification[ String::push ](s: &mut String, c: char)
    ensures
        final(s)@ == old(s)@.push(c),
;

/// `needle` stands in `hay`, starting at position `at`.
pub open spec fn occurs_at(hay: Seq<char>, at: int, needle: Seq<char>) -> bool {
    &&& 0 <= at
    &&& at + needle.len() <= hay.len()
    &&& hay.subrange(at, at + needle.len()) =~= needle
}

/// `needle` stands somewhere in `hay`.
pub open spec fn occurs_in(hay: Seq<char>, needle: Seq<char>) -> bool {
    exists|at: int| occurs_at(hay, at, needle)
}

/// `hay` begins with `needle`.
pub open spec fn starts_with(hay: Seq<char>, needle: Seq<char>) -> bool {
    occurs_at(hay, 0, needle)
}

/// `hay` ends with `needle`.
pub open spec fn ends_with(hay: Seq<char>, needle: Seq<char>) -> bool {
    occurs_at(hay, hay.len() - needle.len(), needle)
}

/// `s` with every occurrence of `from` replaced by `to`, reading from the left
/// and never looking again at what was already replaced. An empty `from`
/// occurs nowhere.
pub open spec fn replaced(s: Seq<char>, from: Seq<char>, to: Seq<char>) -> Seq<char>
    decreases s.len(),
{
    if from.len() == 0 || s.len() < from.len() {
        s
    } else if occurs_at(s, 0, from) {
        to + replaced(s.skip(from.len() as int), from, to)
    } else {
        seq![s[0]] + replaced(s.skip(1), from, to)
    }
}

/// `s` without the occurrences of `prefix` that stand one after another at
/// its beginning. An empty `prefix` removes nothing.
pub open spec fn trimmed(s: Seq<char>, prefix: Seq<char>) -> Seq<char>
    decreases s.len(),
{
    if prefix.len() > 0 && starts_with(s, prefix) {
        trimmed(s.skip(prefix.len() as int), prefix)
    } else {
        s
    }
}

/// An optional text taken by its view.
pub open spec fn opt_view(o: Option<String>) -> Option<Seq<char>> {
    match o {
        Some(text) => Some(text@),
        None => None,
    }
}

/// The characters of a string slice, in order.
pub fn chars_of(s: &str) -> (v: Vec<char>)
    ensures
        v@ == s@,
{
    broadcast use vstd::string::group_string_axioms;

    let mut v: Vec<char> = Vec::new();
    for c in it: s.chars()
        invariant
            it.seq() == s@,
            v@ == it.seq().take(it.index()),
    {
        v.push(c);
    }
    v
}

/// The string made of the characters from position `from` on.
pub fn string_from(v: &Vec<char>, from: usize) -> (s: String)
    requires
        from <= v.len(),
    ensures
        s@ == v@.skip(from as int),
{
    let mut s = String::new();
    let mut i: usize = from;
    while i < v.len()
        invariant
            from <= i <= v.len(),
            s@ == v@.subrange(from as int, i as int),
        decreases v.len() - i,
    {
        s.push(v[i]);
        i += 1;
    }
    s
}

/// The string made of the given characters.
pub fn string_of(v: &Vec<char>) -> (s: String)
    ensures
        s@ == v@,
{
    string_from(v, 0)
}

/// The characters from position `from` up to, not including, position `to`.
pub fn part(v: &Vec<char>, from: usize, to: usize) -> (r: Vec<char>)
    requires
        from <= to <= v.len(),
    ensures
        r@ == v@.subrange(from as int, to as int),
{
    let mut r: Vec<char> = Vec::new();
    let mut i: usize = from;
    while i < to
        invariant
            from <= i <= to <= v.len(),
            r@ == v@.subrange(from as int, i as int),
        decreases to - i,
    {
        r.push(v[i]);
        i += 1;
    }
    r
}

/// Whether `needle` stands in `hay` at position `at`.
pub fn found_at(hay: &Vec<char>, at: usize, needle: &Vec<char>) -> (r: bool)
    ensures
        r == occurs_at(hay@, at as int, needle@),
{
    if needle.len() > hay.len() || at > hay.len() - needle.len() {
        return false;
    }
    let mut i: usize = 0;
    while i < needle.len()
        invariant
            i <= needle.len(),
            at + needle.len() <= hay.len(),
            forall|k: int| 0 <= k < i ==> hay@[at + k] == needle@[k],
        decreases needle.len() - i,
    {
        if hay[at + i] != needle[i] {
            return false;
        }
        i += 1;
    }
    assert(hay@.subrange(at as int, at + needle.len()) =~= needle@);
    true
}

/// Whether two texts hold the same characters.
pub fn same(a: &Vec<char>, b: &Vec<char>) -> (r: bool)
    ensures
        r == (a@ == b@),
{
    if a.len() != b.len() {
        return false;
    }
    let r = found_at(a, 0, b);
    assert(a@.subrange(0, a@.len() as int) =~= a@);
    r
}

/// Whether two string slices hold the same text.
pub fn equal(a: &str, b: &str) -> (r: bool)
    ensures
        r == (a@ == b@),
{
    let left = chars_of(a);
    let right = chars_of(b);
    same(&left, &right)
}

/// A copy of a list of texts.
pub fn copy_texts(texts: &Vec<String>) -> (r: Vec<String>)
    ensures
        r.deep_view() == texts.deep_view(),
{
    let mut r: Vec<String> = Vec::new();
    let mut i: usize = 0;
    while i < texts.len()
        invariant
            i <= texts.len(),
            r.len() == i,
            forall|k: int| 0 <= k < i ==> r@[k]@ == texts@[k]@,
        decreases texts.len() - i,
    {
        r.push(texts[i].clone());
        i += 1;
    }
    r
}

/// Whether `hay` begins with `needle`.
pub fn begins_with(hay: &Vec<char>, needle: &Vec<char>) -> (r: bool)
    ensures
        r == starts_with(hay@, needle@),
{
    found_at(hay, 0, needle)
}

/// Whether `hay` ends with `needle`.
pub fn finishes_with(hay: &Vec<char>, needle: &Vec<char>) -> (r: bool)
    ensures
        r == ends_with(hay@, needle@),
{
    if needle.len() > hay.len() {
        return false;
    }
    found_at(hay, hay.len() - needle.len(), needle)
}

/// Whether `needle` stands somewhere in `hay`.
pub fn found_in(hay: &Vec<char>, needle: &Vec<char>) -> (r: bool)
    ensures
        r == occurs_in(hay@, needle@),
{
    if needle.len() > hay.len() {
        return false;
    }
    let last: usize = hay.len() - needle.len();
    let mut at: usize = 0;
    loop
        invariant
            last == hay.len() - needle.len(),
            at <= last,
            forall|k: int| 0 <= k < at ==> !occurs_at(hay@, k, needle@),
        decreases last - at,
    {
        if found_at(hay, at, needle) {
            return true;
        }
        if at == last {
            return false;
        }
        at += 1;
    }
}

/// Whether the character `c` stands somewhere in `hay`.
pub fn holds_char(hay: &Vec<char>, c: char) -> (r: bool)
    ensures
        r == hay@.contains(c),
{
    let mut i: usize = 0;
    while i < hay.len()
        invariant
            i <= hay.len(),
            forall|k: int| 0 <= k < i ==> hay@[k] != c,
        decreases hay.len() - i,
    {
        if hay[i] == c {
            return true;
        }
        i += 1;
    }
    false
}

/// Appends all of `tail` to `out`.
pub fn extend(out: &mut Vec<char>, tail: &Vec<char>)
    ensures
        final(out)@ == old(out)@ + tail@,
{
    let mut i: usize = 0;
    while i < tail.len()
        invariant
            i <= tail.len(),
            out@ == old(out)@ + tail@.take(i as int),
        decreases tail.len() - i,
    {
        out.push(tail[i]);
        i += 1;
    }
}

/// `s` with every occurrence of `from` replaced by `to`.
pub fn replace_all(s: &Vec<char>, from: &Vec<char>, to: &Vec<char>) -> (r: Vec<char>)
    ensures
        r@ == replaced(s@, from@, to@),
{
    let mut out: Vec<char> = Vec::new();
    let mut i: usize = 0;
    assert(s@.skip(0) =~= s@);
    while i < s.len()
        invariant
            i <= s.len(),
            out@ + replaced(s@.skip(i as int), from@, to@) == replaced(s@, from@, to@),
        decreases s.len() - i,
    {
        let ghost rest = s@.skip(i as int);
        assert(occurs_at(rest, 0, from@) == occurs_at(s@, i as int, from@)) by {
            if i + from@.len() <= s@.len() {
                assert(rest.subrange(0, from@.len() as int) =~= s@.subrange(
                    i as int,
                    i + from@.len(),
                ));
            }
        }
        if from.len() > 0 && found_at(s, i, from) {
            extend(&mut out, to);
            i += from.len();
            assert(rest.skip(from@.len() as int) =~= s@.skip(i as int));
        } else {
            out.push(s[i]);
            i += 1;
            assert(rest.skip(1) =~= s@.skip(i as int));
        }
    }
    out
}

/// The position at which `s` goes on once the leading occurrences of `prefix`
/// are passed over.
pub fn trim_start(s: &Vec<char>, prefix: &Vec<char>) -> (at: usize)
    ensures
        at <= s.len(),
        s@.skip(at as int) == trimmed(s@, prefix@),
{
    let mut at: usize = 0;
    assert(s@.skip(0) =~= s@);
    if prefix.len() == 0 {
        return at;
    }
    while found_at(s, at, prefix)
        invariant
            prefix.len() > 0,
            at <= s.len(),
            trimmed(s@.skip(at as int), prefix@) == trimmed(s@, prefix@),
        decreases s.len() - at,
    {
        let ghost rest = s@.skip(at as int);
        assert(rest.subrange(0, prefix@.len() as int) =~= s@.subrange(
            at as int,
            at + prefix@.len(),
        ));
        at += prefix.len();
        assert(rest.skip(prefix@.len() as int) =~= s@.skip(at as int));
    }
    proof {
        let rest = s@.skip(at as int);
        if at + prefix@.len() <= s@.len() {
            assert(rest.subrange(0, prefix@.len() as int) =~= s@.subrange(
                at as int,
                at + prefix@.len(),
            ));
        }
    }
    at
}

} // verus!
