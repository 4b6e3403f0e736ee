//! Values as they travel on the bus, reduced to what this crate reads of them.
//!
//! A message carries arguments. A property's value is a text, a dictionary or
//! something else; an entry of a metadata dictionary is a text, a list of
//! texts or something else. Dictionaries are kept as lists of entries in the
//! order in which they were walked; of two entries with one key the first
//! counts.

use crate::text::{chars_of, same};
use vstd::prelude::*;

verus! {

/// The value of an entry of a metadata dictionary.
#[derive(Debug, Clone, PartialEq, Eq)]
pub enum Field {
    Text(String),
    List(Vec<String>),
    Other,
}

pub enum FieldView {
    Text(Seq<char>),
    List(Seq<Seq<char>>),
    Other,
}

impl View for Field {
    type V = FieldView;

    open spec fn view(&self) -> FieldView {
        match self {
            Field::Text(text) => FieldView::Text(text@),
            Field::List(items) => FieldView::List(items.deep_view()),
            Field::Other => FieldView::Other,
        }
    }
}

/// An entry of a metadata dictionary.
#[derive(Debug, Clone, PartialEq, Eq)]
pub struct FieldEntry {
    pub key: String,
    pub value: Field,
}

pub struct FieldEntryView {
    pub key: Seq<char>,
    pub value: FieldView,
}

impl View for FieldEntry {
    type V = FieldEntryView;

    open spec fn view(&self) -> FieldEntryView {
        FieldEntryView { key: self.key@, value: self.value@ }
    }
}

impl DeepView for FieldEntry {
    type V = FieldEntryView;

    open spec fn deep_view(&self) -> FieldEntryView {
        self@
    }
}

/// The value of a property.
#[derive(Debug, Clone, PartialEq, Eq)]
pub enum Value {
    Text(String),
    Dict(Vec<FieldEntry>),
    Other,
}

pub enum ValueView {
    Text(Seq<char>),
    Dict(Seq<FieldEntryView>),
    Other,
}

impl View for Value {
    type V = ValueView;

    open spec fn view(&self) -> ValueView {
        match self {
            Value::Text(text) => ValueView::Text(text@),
            Value::Dict(entries) => ValueView::Dict(entries.deep_view()),
            Value::Other => ValueView::Other,
        }
    }
}

/// A changed property: its name and its new value.
#[derive(Debug, Clone, PartialEq, Eq)]
pub struct ValueEntry {
    pub key: String,
    pub value: Value,
}

pub struct ValueEntryView {
    pub key: Seq<char>,
    pub value: ValueView,
}

impl View for ValueEntry {
    type V = ValueEntryView;

    open spec fn view(&self) -> ValueEntryView {
        ValueEntryView { key: self.key@, value: self.value@ }
    }
}

impl DeepView for ValueEntry {
    type V = ValueEntryView;

    open spec fn deep_view(&self) -> ValueEntryView {
        self@
    }
}

/// An argument of a message.
#[derive(Debug, Clone, PartialEq, Eq)]
pub enum Argument {
    Text(String),
    Properties(Vec<ValueEntry>),
    Other,
}

pub enum ArgumentView {
    Text(Seq<char>),
    Properties(Seq<ValueEntryView>),
    Other,
}

impl View for Argument {
    type V = ArgumentView;

    open spec fn view(&self) -> ArgumentView {
        match self {
            Argument::Text(text) => ArgumentView::Text(text@),
            Argument::Properties(entries) => ArgumentView::Properties(entries.deep_view()),
            Argument::Other => ArgumentView::Other,
        }
    }
}

impl DeepView for Argument {
    type V = ArgumentView;

    open spec fn deep_view(&self) -> ArgumentView {
        self@
    }
}

/// Position of the first entry from `from` on that has the key.
pub open spec fn field_position(entries: Seq<FieldEntryView>, key: Seq<char>, from: int) -> Option<
    int,
>
    decreases entries.len() - from,
{
    if from < 0 || from >= entries.len() {
        None
    } else if entries[from].key == key {
        Some(from)
    } else {
        field_position(entries, key, from + 1)
    }
}

/// The value that a metadata dictionary holds under a key.
pub open spec fn field_of(entries: Seq<FieldEntryView>, key: Seq<char>) -> Option<FieldView> {
    match field_position(entries, key, 0) {
        Some(at) => Some(entries[at].value),
        None => None,
    }
}

/// The entry of a metadata dictionary that has the key, if there is one.
pub fn find_field<'a>(entries: &'a Vec<FieldEntry>, key: &str) -> (r: Option<&'a Field>)
    ensures
        match field_of(entries.deep_view(), key@) {
            Some(value) => r is Some && r->0@ == value,
            None => r is None,
        },
{
    let wanted = chars_of(key);
    let ghost all = entries.deep_view();
    let mut i: usize = 0;
    while i < entries.len()
        invariant
            i <= entries.len(),
            wanted@ == key@,
            all == entries.deep_view(),
            field_position(all, key@, 0) == field_position(all, key@, i as int),
        decreases entries.len() - i,
    {
        let have = chars_of(entries[i].key.as_str());
        if same(&have, &wanted) {
            return Some(&entries[i].value);
        }
        i += 1;
    }
    None
}

/// Position of the first changed property from `from` on that has the name.
pub open spec fn value_position(entries: Seq<ValueEntryView>, key: Seq<char>, from: int) -> Option<
    int,
>
    decreases entries.len() - from,
{
    if from < 0 || from >= entries.len() {
        None
    } else if entries[from].key == key {
        Some(from)
    } else {
        value_position(entries, key, from + 1)
    }
}

/// The new value of a property, where the property is among the changed
/// ones.
pub open spec fn value_of(entries: Seq<ValueEntryView>, key: Seq<char>) -> Option<ValueView> {
    match value_position(entries, key, 0) {
        Some(at) => Some(entries[at].value),
        None => None,
    }
}

/// The new value of a property, if the property is among the changed ones.
pub fn find_value<'a>(entries: &'a Vec<ValueEntry>, key: &str) -> (r: Option<&'a Value>)
    ensures
        match value_of(entries.deep_view(), key@) {
            Some(value) => r is Some && r->0@ == value,
            None => r is None,
        },
{
    let wanted = chars_of(key);
    let ghost all = entries.deep_view();
    let mut i: usize = 0;
    while i < entries.len()
        invariant
            i <= entries.len(),
            wanted@ == key@,
            all == entries.deep_view(),
            value_position(all, key@, 0) == value_position(all, key@, i as int),
        decreases entries.len() - i,
    {
        let have = chars_of(entries[i].key.as_str());
        if same(&have, &wanted) {
            return Some(&entries[i].value);
        }
        i += 1;
    }
    None
}

} // verus!
